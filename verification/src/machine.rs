use crate::error::InterpreterError;
use crate::fonts::{font_table, GLYPH_SIZE};
use crate::opcode::{instruction_of, Instruction, Opcode};
use vstd::prelude::*;

verus! {

/// Bytes of addressable memory.
pub const MEMORY_SIZE: usize = 4096;

/// Where programs are loaded and where execution starts.
pub const PROGRAM_START: usize = 0x200;

/// General registers, `V0` to `VF`.
pub const REGISTER_COUNT: usize = 16;

/// Return addresses that the call stack can hold.
pub const STACK_DEPTH: usize = 16;

/// Keys on the keypad.
pub const KEY_COUNT: usize = 16;

/// Pixels in a row of the screen.
pub const DISPLAY_WIDTH: usize = 64;

/// Rows of the screen.
pub const DISPLAY_HEIGHT: usize = 32;

/// The register that arithmetic, shifts and drawing report into.
pub const FLAG_REGISTER: usize = 0xF;

/// The machine as a mathematical value: what every contract of the
/// interpreter speaks about.
#[verifier::ext_equal]
pub ghost struct Machine {
    pub memory: Seq<u8>,
    pub registers: Seq<u8>,
    pub index: u16,
    pub pc: u16,
    /// The return addresses of the calls that have not returned yet, the
    /// most recent last.
    pub stack: Seq<u16>,
    pub keys: Seq<bool>,
    pub delay_timer: u8,
    pub sound_timer: u8,
    /// The pixels by row and then by column: `screen[y][x]`.
    pub screen: Seq<Seq<bool>>,
}

/// A machine together with the outcome of the operation that led to it.
#[verifier::ext_equal]
pub ghost struct Step {
    pub after: Machine,
    pub result: Result<(), InterpreterError>,
}

/// The pair of a machine and an outcome.
pub open spec fn step(after: Machine, result: Result<(), InterpreterError>) -> Step {
    Step { after, result }
}

/// A screen with every pixel off.
pub open spec fn blank_screen() -> Seq<Seq<bool>> {
    Seq::new(DISPLAY_HEIGHT as nat, |y: int| Seq::new(DISPLAY_WIDTH as nat, |x: int| false))
}

/// One for a raised flag, zero otherwise.
pub open spec fn flag(raised: bool) -> u8 {
    if raised {
        1u8
    } else {
        0u8
    }
}

/// Whether a sprite row has its pixel in column `col` set; column 0 is the
/// highest bit of the byte.
pub open spec fn sprite_bit(row: u8, col: int) -> bool {
    (row >> ((7 - col) as u8)) & 1u8 == 1u8
}

/// The lowest key at or above `from` that is held down.
pub open spec fn lowest_pressed_from(keys: Seq<bool>, from: int) -> Option<u8>
    decreases keys.len() - from,
{
    if from < 0 || from >= keys.len() {
        None
    } else if keys[from] {
        Some(from as u8)
    } else {
        lowest_pressed_from(keys, from + 1)
    }
}

/// The lowest key that is held down.
pub open spec fn lowest_pressed(keys: Seq<bool>) -> Option<u8> {
    lowest_pressed_from(keys, 0)
}

impl Machine {
    /// The shape that every reachable machine has.
    pub open spec fn wf(self) -> bool {
        &&& self.memory.len() == MEMORY_SIZE
        &&& self.registers.len() == REGISTER_COUNT
        &&& self.stack.len() <= STACK_DEPTH
        &&& self.keys.len() == KEY_COUNT
        &&& self.screen.len() == DISPLAY_HEIGHT
        &&& forall|y: int|
            0 <= y < DISPLAY_HEIGHT ==> (#[trigger] self.screen[y]).len() == DISPLAY_WIDTH
    }

    /// The machine as it is switched on: everything zero, the font at the
    /// bottom of memory, the program counter at the program start.
    pub open spec fn power_on() -> Machine {
        Machine {
            memory: Seq::new(
                MEMORY_SIZE as nat,
                |a: int|
                    if a < font_table().len() {
                        font_table()[a]
                    } else {
                        0u8
                    },
            ),
            registers: Seq::new(REGISTER_COUNT as nat, |i: int| 0u8),
            index: 0,
            pc: PROGRAM_START as u16,
            stack: Seq::empty(),
            keys: Seq::new(KEY_COUNT as nat, |k: int| false),
            delay_timer: 0,
            sound_timer: 0,
            screen: blank_screen(),
        }
    }

    /// The machine with the font written over the lowest addresses.
    pub open spec fn with_font(self) -> Machine {
        Machine {
            memory: Seq::new(
                self.memory.len(),
                |a: int|
                    if a < font_table().len() {
                        font_table()[a]
                    } else {
                        self.memory[a]
                    },
            ),
            ..self
        }
    }

    /// The machine with `program` written from the program start upwards.
    pub open spec fn with_program(self, program: Seq<u8>) -> Machine {
        Machine {
            memory: Seq::new(
                self.memory.len(),
                |a: int|
                    if PROGRAM_START <= a < PROGRAM_START + program.len() {
                        program[a - PROGRAM_START]
                    } else {
                        self.memory[a]
                    },
            ),
            ..self
        }
    }

    /// Whether a program of `len` bytes fits between the program start and
    /// the end of memory.
    pub open spec fn program_fits(len: nat) -> bool {
        PROGRAM_START + len <= MEMORY_SIZE
    }

    /// The machine with key `key` held down or released.
    pub open spec fn with_key(self, key: int, pressed: bool) -> Machine {
        Machine { keys: self.keys.update(key, pressed), ..self }
    }

    /// The machine after one step of both timers: each goes down by one
    /// unless it is already zero.
    pub open spec fn with_timers_stepped(self) -> Machine {
        Machine {
            delay_timer: if self.delay_timer > 0 {
                (self.delay_timer - 1) as u8
            } else {
                0u8
            },
            sound_timer: if self.sound_timer > 0 {
                (self.sound_timer - 1) as u8
            } else {
                0u8
            },
            ..self
        }
    }

    /// The value of register `x`.
    pub open spec fn v(self, x: u8) -> u8 {
        self.registers[x as int]
    }

    /// The machine with `value` in register `x`.
    pub open spec fn set_v(self, x: u8, value: u8) -> Machine {
        Machine { registers: self.registers.update(x as int, value), ..self }
    }

    /// The machine with `value` in register `x` and then the flag in `VF`:
    /// the flag is written last, so it wins where `x` is `VF` itself.
    pub open spec fn set_v_and_flag(self, x: u8, value: u8, raised: bool) -> Machine {
        Machine {
            registers: self.registers.update(x as int, value).update(
                FLAG_REGISTER as int,
                flag(raised),
            ),
            ..self
        }
    }

    /// The operation succeeded and left this machine.
    pub open spec fn ok(self) -> Step {
        Step { after: self, result: Ok(()) }
    }

    /// The operation failed with `error` and left this machine.
    pub open spec fn fail(self, error: InterpreterError) -> Step {
        Step { after: self, result: Err(error) }
    }

    /// Steps over the next instruction where `condition` holds. The program
    /// counter never wraps: where it cannot go two further, the step fails.
    pub open spec fn skip_if(self, condition: bool) -> Step {
        if !condition {
            self.ok()
        } else if self.pc + 2 > u16::MAX {
            self.fail(InterpreterError::OutOfBounds)
        } else {
            Machine { pc: (self.pc + 2) as u16, ..self }.ok()
        }
    }

    /// Whether the sprite of `n` rows at the index register, drawn with its
    /// top left corner at (`vx`, `vy`), has a set bit on pixel (`px`,
    /// `py`). Coordinates wrap at the edges of the screen, so the pixel
    /// belongs to sprite column `(px - vx) mod 64` and sprite row
    /// `(py - vy) mod 32`.
    pub open spec fn sprite_lights(self, vx: u8, vy: u8, n: u8, px: int, py: int) -> bool {
        let col = (px - vx) % (DISPLAY_WIDTH as int);
        let row = (py - vy) % (DISPLAY_HEIGHT as int);
        col < 8 && row < n && sprite_bit(self.memory[self.index + row], col)
    }

    /// Whether bit `col` of sprite row `row` is set and falls on a pixel
    /// that is lit, so that drawing the bit turns the pixel off.
    pub open spec fn erases(self, vx: u8, vy: u8, row: int, col: int) -> bool {
        &&& sprite_bit(self.memory[self.index + row], col)
        &&& self.screen[(vy + row) % (DISPLAY_HEIGHT as int)][(vx + col) % (DISPLAY_WIDTH as int)]
    }

    /// Whether drawing the sprite turns any lit pixel off.
    pub open spec fn collides(self, vx: u8, vy: u8, n: u8) -> bool {
        exists|row: int, col: int|
            0 <= row < n && 0 <= col < 8 && #[trigger] self.erases(vx, vy, row, col)
    }

    /// The screen after the sprite is drawn: a pixel changes exactly where
    /// the sprite has a set bit on it.
    pub open spec fn drawn(self, vx: u8, vy: u8, n: u8) -> Seq<Seq<bool>> {
        Seq::new(
            DISPLAY_HEIGHT as nat,
            |py: int|
                Seq::new(
                    DISPLAY_WIDTH as nat,
                    |px: int| self.screen[py][px] != self.sprite_lights(vx, vy, n, px, py),
                ),
        )
    }

    /// The effect of instruction `Dxyn`.
    pub open spec fn draw(self, x: u8, y: u8, n: u8) -> Step {
        if n > 0 && self.index + n > MEMORY_SIZE {
            self.fail(InterpreterError::OutOfBounds)
        } else {
            Machine {
                screen: self.drawn(self.v(x), self.v(y), n),
                registers: self.registers.update(
                    FLAG_REGISTER as int,
                    flag(self.collides(self.v(x), self.v(y), n)),
                ),
                ..self
            }.ok()
        }
    }

    /// The effect of instruction `Fx0A`: with a key down its number goes to
    /// register `x`; with none down the program counter goes back onto the
    /// instruction, which is then met again at the next cycle.
    pub open spec fn wait_key(self, x: u8) -> Step {
        match lowest_pressed(self.keys) {
            Some(key) => self.set_v(x, key).ok(),
            None => if self.pc < 2 {
                self.fail(InterpreterError::OutOfBounds)
            } else {
                Machine { pc: (self.pc - 2) as u16, ..self }.ok()
            },
        }
    }

    /// The effect of instruction `Fx33`.
    pub open spec fn store_decimal(self, x: u8) -> Step {
        if self.index + 2 >= MEMORY_SIZE {
            self.fail(InterpreterError::OutOfBounds)
        } else {
            Machine {
                memory: self.memory.update(self.index as int, self.v(x) / 100).update(
                    self.index + 1,
                    self.v(x) / 10 % 10,
                ).update(self.index + 2, self.v(x) % 10),
                ..self
            }.ok()
        }
    }

    /// The effect of instruction `Fx55`: registers `V0` to `Vx`, `Vx`
    /// included, go to memory from the index register upwards.
    pub open spec fn store_registers(self, x: u8) -> Step {
        if self.index + x >= MEMORY_SIZE {
            self.fail(InterpreterError::OutOfBounds)
        } else {
            Machine {
                memory: Seq::new(
                    self.memory.len(),
                    |a: int|
                        if self.index <= a <= self.index + x {
                            self.registers[a - self.index]
                        } else {
                            self.memory[a]
                        },
                ),
                ..self
            }.ok()
        }
    }

    /// The effect of instruction `Fx65`: registers `V0` to `Vx`, `Vx`
    /// included, are read from memory at the index register upwards.
    pub open spec fn restore_registers(self, x: u8) -> Step {
        if self.index + x >= MEMORY_SIZE {
            self.fail(InterpreterError::OutOfBounds)
        } else {
            Machine {
                registers: Seq::new(
                    self.registers.len(),
                    |i: int|
                        if i <= x {
                            self.memory[self.index + i]
                        } else {
                            self.registers[i]
                        },
                ),
                ..self
            }.ok()
        }
    }

    /// The effect of one instruction on a machine whose program counter
    /// already stands behind it. `random` is the byte that `Cxnn` uses; no
    /// other instruction looks at it. A failing instruction changes nothing.
    pub open spec fn apply(self, instruction: Instruction, random: u8) -> Step {
        match instruction {
            Instruction::ClearScreen => Machine { screen: blank_screen(), ..self }.ok(),
            Instruction::Return => if self.stack.len() == 0 {
                self.fail(InterpreterError::StackUnderflow)
            } else {
                Machine { pc: self.stack.last(), stack: self.stack.drop_last(), ..self }.ok()
            },
            Instruction::Jump { nnn } => Machine { pc: nnn, ..self }.ok(),
            Instruction::Call { nnn } => if self.stack.len() >= STACK_DEPTH {
                self.fail(InterpreterError::StackOverflow)
            } else {
                Machine { pc: nnn, stack: self.stack.push(self.pc), ..self }.ok()
            },
            Instruction::SkipIfEqual { x, nn } => self.skip_if(self.v(x) == nn),
            Instruction::SkipIfNotEqual { x, nn } => self.skip_if(self.v(x) != nn),
            Instruction::SkipIfSame { x, y } => self.skip_if(self.v(x) == self.v(y)),
            Instruction::Load { x, nn } => self.set_v(x, nn).ok(),
            Instruction::AddByte { x, nn } => self.set_v(x, ((self.v(x) + nn) % 256) as u8).ok(),
            Instruction::Move { x, y } => self.set_v(x, self.v(y)).ok(),
            Instruction::Or { x, y } => self.set_v(x, self.v(x) | self.v(y)).ok(),
            Instruction::And { x, y } => self.set_v(x, self.v(x) & self.v(y)).ok(),
            Instruction::Xor { x, y } => self.set_v(x, self.v(x) ^ self.v(y)).ok(),
            Instruction::Add { x, y } => self.set_v_and_flag(
                x,
                ((self.v(x) + self.v(y)) % 256) as u8,
                self.v(x) + self.v(y) > 255,
            ).ok(),
            Instruction::Subtract { x, y } => self.set_v_and_flag(
                x,
                ((self.v(x) - self.v(y)) % 256) as u8,
                self.v(x) >= self.v(y),
            ).ok(),
            Instruction::ShiftRight { x } => self.set_v_and_flag(
                x,
                self.v(x) / 2,
                self.v(x) % 2 == 1,
            ).ok(),
            Instruction::SubtractFrom { x, y } => self.set_v_and_flag(
                x,
                ((self.v(y) - self.v(x)) % 256) as u8,
                self.v(y) >= self.v(x),
            ).ok(),
            Instruction::ShiftLeft { x } => self.set_v_and_flag(
                x,
                ((self.v(x) * 2) % 256) as u8,
                self.v(x) >= 128,
            ).ok(),
            Instruction::SkipIfDifferent { x, y } => self.skip_if(self.v(x) != self.v(y)),
            Instruction::LoadIndex { nnn } => Machine { index: nnn, ..self }.ok(),
            Instruction::JumpOffset { nnn } => Machine {
                pc: ((nnn + self.v(0)) % 0x10000) as u16,
                ..self
            }.ok(),
            Instruction::Random { x, nn } => self.set_v(x, random & nn).ok(),
            Instruction::Draw { x, y, n } => self.draw(x, y, n),
            Instruction::SkipIfKey { x } => if self.v(x) >= KEY_COUNT {
                self.fail(InterpreterError::OutOfRange)
            } else {
                self.skip_if(self.keys[self.v(x) as int])
            },
            Instruction::SkipIfNoKey { x } => if self.v(x) >= KEY_COUNT {
                self.fail(InterpreterError::OutOfRange)
            } else {
                self.skip_if(!self.keys[self.v(x) as int])
            },
            Instruction::ReadDelay { x } => self.set_v(x, self.delay_timer).ok(),
            Instruction::WaitKey { x } => self.wait_key(x),
            Instruction::SetDelay { x } => Machine { delay_timer: self.v(x), ..self }.ok(),
            Instruction::SetSound { x } => Machine { sound_timer: self.v(x), ..self }.ok(),
            Instruction::AddIndex { x } => Machine {
                index: ((self.index + self.v(x)) % 0x10000) as u16,
                ..self
            }.ok(),
            Instruction::Glyph { x } => Machine {
                index: (self.v(x) * GLYPH_SIZE) as u16,
                ..self
            }.ok(),
            Instruction::Decimal { x } => self.store_decimal(x),
            Instruction::Store { x } => self.store_registers(x),
            Instruction::Restore { x } => self.restore_registers(x),
        }
    }

    /// The word at the program counter, high byte first, and the machine
    /// with the program counter behind it; an error where either byte of
    /// the word lies outside memory.
    pub open spec fn fetch(self) -> Result<(Machine, Opcode), InterpreterError> {
        if self.pc + 1 >= MEMORY_SIZE {
            Err(InterpreterError::OutOfBounds)
        } else {
            Ok(
                (
                    Machine { pc: (self.pc + 2) as u16, ..self },
                    Opcode {
                        raw: (self.memory[self.pc as int] * 256 + self.memory[self.pc + 1]) as u16,
                    },
                ),
            )
        }
    }

    /// Decodes and applies a word that has been fetched. A word that is no
    /// instruction fails and changes nothing.
    pub open spec fn execute(self, opcode: Opcode, random: u8) -> Step {
        match instruction_of(opcode.raw) {
            None => self.fail(InterpreterError::UnknownOpcode(opcode.raw)),
            Some(instruction) => self.apply(instruction, random),
        }
    }

    /// Whether the word at the program counter can be fetched and is the
    /// one instruction that draws a random byte.
    pub open spec fn draws_random(self) -> bool {
        self.fetch() matches Ok((_, opcode)) && is_random(opcode.raw)
    }

    /// One whole cycle: fetch, decode, execute. Where the fetch fails the
    /// machine is unchanged; where the instruction fails only the program
    /// counter has moved.
    pub open spec fn tick(self, random: u8) -> Step {
        match self.fetch() {
            Err(error) => self.fail(error),
            Ok((fetched, opcode)) => fetched.execute(opcode, random),
        }
    }
}

/// Whether the instruction in a word draws a random byte.
pub open spec fn is_random(raw: u16) -> bool {
    instruction_of(raw) matches Some(Instruction::Random { .. })
}

} // verus!
