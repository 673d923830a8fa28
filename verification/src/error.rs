use vstd::prelude::*;

verus! {

/// A program does not fit into memory above the program start.
#[derive(Clone, Copy, Debug, PartialEq, Eq, Structural)]
pub struct CapacityError;

/// A key index outside the sixteen keys of the keypad.
#[derive(Clone, Copy, Debug, PartialEq, Eq, Structural)]
pub struct OutOfRange;

/// Why an instruction cycle could not be completed.
#[derive(Clone, Copy, Debug, PartialEq, Eq, Structural)]
pub enum InterpreterError {
    /// An address outside memory was about to be used, or the program
    /// counter was about to leave its sixteen-bit range.
    OutOfBounds,
    /// A register named a key that the keypad does not have.
    OutOfRange,
    /// A call was made with all sixteen stack slots in use.
    StackOverflow,
    /// A return was made with no call outstanding.
    StackUnderflow,
    /// The word is no instruction of the machine.
    UnknownOpcode(u16),
}

} // verus!
