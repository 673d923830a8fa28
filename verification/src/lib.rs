//! An interpreter for the CHIP-8 virtual machine: memory, registers, call
//! stack, keypad, timers and a 64 by 32 screen, with the instruction set that
//! drives them, proved against a mathematical model of the machine.
//!
//! [`machine`] holds the model, [`vm`] the machine itself, [`laws`] what
//! follows for every program. [`device`], [`display`] and [`events`] are
//! what a host needs to run the machine in a window or a terminal, and
//! [`assembler`] reads program text.

pub mod assembler;
pub mod device;
pub mod display;
pub mod error;
pub mod events;
pub mod fonts;
pub mod laws;
pub mod machine;
pub mod opcode;
pub mod rom;
pub mod vm;
