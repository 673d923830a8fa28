use vstd::prelude::*;

verus! {

/// One fetched instruction word, high byte first.
#[derive(Clone, Copy, Debug, PartialEq, Eq, Structural)]
pub struct Opcode {
    pub raw: u16,
}

/// What a word asks the machine to do. `x` and `y` select registers, `nn`
/// is the low byte of the word, `nnn` its low twelve bits and `n` its low
/// four.
#[derive(Clone, Copy, Debug, PartialEq, Eq, Structural)]
pub enum Instruction {
    /// `00E0`
    ClearScreen,
    /// `00EE`
    Return,
    /// `1nnn`
    Jump { nnn: u16 },
    /// `2nnn`
    Call { nnn: u16 },
    /// `3xnn`
    SkipIfEqual { x: u8, nn: u8 },
    /// `4xnn`
    SkipIfNotEqual { x: u8, nn: u8 },
    /// `5xy0`
    SkipIfSame { x: u8, y: u8 },
    /// `6xnn`
    Load { x: u8, nn: u8 },
    /// `7xnn`
    AddByte { x: u8, nn: u8 },
    /// `8xy0`
    Move { x: u8, y: u8 },
    /// `8xy1`
    Or { x: u8, y: u8 },
    /// `8xy2`
    And { x: u8, y: u8 },
    /// `8xy3`
    Xor { x: u8, y: u8 },
    /// `8xy4`
    Add { x: u8, y: u8 },
    /// `8xy5`
    Subtract { x: u8, y: u8 },
    /// `8xy6`
    ShiftRight { x: u8 },
    /// `8xy7`
    SubtractFrom { x: u8, y: u8 },
    /// `8xyE`
    ShiftLeft { x: u8 },
    /// `9xy0`
    SkipIfDifferent { x: u8, y: u8 },
    /// `Annn`
    LoadIndex { nnn: u16 },
    /// `Bnnn`
    JumpOffset { nnn: u16 },
    /// `Cxnn`
    Random { x: u8, nn: u8 },
    /// `Dxyn`
    Draw { x: u8, y: u8, n: u8 },
    /// `Ex9E`
    SkipIfKey { x: u8 },
    /// `ExA1`
    SkipIfNoKey { x: u8 },
    /// `Fx07`
    ReadDelay { x: u8 },
    /// `Fx0A`
    WaitKey { x: u8 },
    /// `Fx15`
    SetDelay { x: u8 },
    /// `Fx18`
    SetSound { x: u8 },
    /// `Fx1E`
    AddIndex { x: u8 },
    /// `Fx29`
    Glyph { x: u8 },
    /// `Fx33`
    Decimal { x: u8 },
    /// `Fx55`
    Store { x: u8 },
    /// `Fx65`
    Restore { x: u8 },
}

impl Instruction {
    /// Every register that the instruction selects is one of the sixteen,
    /// every address fits in twelve bits and a sprite height in four.
    pub open spec fn wf(self) -> bool {
        match self {
            Instruction::ClearScreen | Instruction::Return => true,
            Instruction::Jump { nnn }
            | Instruction::Call { nnn }
            | Instruction::LoadIndex { nnn }
            | Instruction::JumpOffset { nnn } => nnn < 0x1000,
            Instruction::SkipIfEqual { x, nn }
            | Instruction::SkipIfNotEqual { x, nn }
            | Instruction::Load { x, nn }
            | Instruction::AddByte { x, nn }
            | Instruction::Random { x, nn } => x < 16,
            Instruction::SkipIfSame { x, y }
            | Instruction::Move { x, y }
            | Instruction::Or { x, y }
            | Instruction::And { x, y }
            | Instruction::Xor { x, y }
            | Instruction::Add { x, y }
            | Instruction::Subtract { x, y }
            | Instruction::SubtractFrom { x, y }
            | Instruction::SkipIfDifferent { x, y } => x < 16 && y < 16,
            Instruction::Draw { x, y, n } => x < 16 && y < 16 && n < 16,
            Instruction::ShiftRight { x }
            | Instruction::ShiftLeft { x }
            | Instruction::SkipIfKey { x }
            | Instruction::SkipIfNoKey { x }
            | Instruction::ReadDelay { x }
            | Instruction::WaitKey { x }
            | Instruction::SetDelay { x }
            | Instruction::SetSound { x }
            | Instruction::AddIndex { x }
            | Instruction::Glyph { x }
            | Instruction::Decimal { x }
            | Instruction::Store { x }
            | Instruction::Restore { x } => x < 16,
        }
    }
}

/// The four hexadecimal digits of a word, highest first.
pub open spec fn digits(raw: u16) -> (u8, u8, u8, u8) {
    ((raw / 0x1000) as u8, (raw / 0x100 % 16) as u8, (raw / 0x10 % 16) as u8, (raw % 16) as u8)
}

/// The word with the given hexadecimal digits, highest first.
pub open spec fn word_of(d1: u8, d2: u8, d3: u8, d4: u8) -> u16 {
    (d1 * 0x1000 + d2 * 0x100 + d3 * 0x10 + d4) as u16
}

/// The instruction that a word encodes, if it encodes one. Several families
/// share their first digit and are told apart by the last digit or the last
/// two.
pub open spec fn instruction_of(raw: u16) -> Option<Instruction> {
    let (d1, x, y, n) = digits(raw);
    let nn = (raw % 0x100) as u8;
    let nnn = (raw % 0x1000) as u16;
    if raw == 0x00E0 {
        Some(Instruction::ClearScreen)
    } else if raw == 0x00EE {
        Some(Instruction::Return)
    } else if d1 == 1 {
        Some(Instruction::Jump { nnn })
    } else if d1 == 2 {
        Some(Instruction::Call { nnn })
    } else if d1 == 3 {
        Some(Instruction::SkipIfEqual { x, nn })
    } else if d1 == 4 {
        Some(Instruction::SkipIfNotEqual { x, nn })
    } else if d1 == 5 && n == 0 {
        Some(Instruction::SkipIfSame { x, y })
    } else if d1 == 6 {
        Some(Instruction::Load { x, nn })
    } else if d1 == 7 {
        Some(Instruction::AddByte { x, nn })
    } else if d1 == 8 && n == 0 {
        Some(Instruction::Move { x, y })
    } else if d1 == 8 && n == 1 {
        Some(Instruction::Or { x, y })
    } else if d1 == 8 && n == 2 {
        Some(Instruction::And { x, y })
    } else if d1 == 8 && n == 3 {
        Some(Instruction::Xor { x, y })
    } else if d1 == 8 && n == 4 {
        Some(Instruction::Add { x, y })
    } else if d1 == 8 && n == 5 {
        Some(Instruction::Subtract { x, y })
    } else if d1 == 8 && n == 6 {
        Some(Instruction::ShiftRight { x })
    } else if d1 == 8 && n == 7 {
        Some(Instruction::SubtractFrom { x, y })
    } else if d1 == 8 && n == 0xE {
        Some(Instruction::ShiftLeft { x })
    } else if d1 == 9 && n == 0 {
        Some(Instruction::SkipIfDifferent { x, y })
    } else if d1 == 0xA {
        Some(Instruction::LoadIndex { nnn })
    } else if d1 == 0xB {
        Some(Instruction::JumpOffset { nnn })
    } else if d1 == 0xC {
        Some(Instruction::Random { x, nn })
    } else if d1 == 0xD {
        Some(Instruction::Draw { x, y, n })
    } else if d1 == 0xE && nn == 0x9E {
        Some(Instruction::SkipIfKey { x })
    } else if d1 == 0xE && nn == 0xA1 {
        Some(Instruction::SkipIfNoKey { x })
    } else if d1 == 0xF && nn == 0x07 {
        Some(Instruction::ReadDelay { x })
    } else if d1 == 0xF && nn == 0x0A {
        Some(Instruction::WaitKey { x })
    } else if d1 == 0xF && nn == 0x15 {
        Some(Instruction::SetDelay { x })
    } else if d1 == 0xF && nn == 0x18 {
        Some(Instruction::SetSound { x })
    } else if d1 == 0xF && nn == 0x1E {
        Some(Instruction::AddIndex { x })
    } else if d1 == 0xF && nn == 0x29 {
        Some(Instruction::Glyph { x })
    } else if d1 == 0xF && nn == 0x33 {
        Some(Instruction::Decimal { x })
    } else if d1 == 0xF && nn == 0x55 {
        Some(Instruction::Store { x })
    } else if d1 == 0xF && nn == 0x65 {
        Some(Instruction::Restore { x })
    } else {
        None
    }
}

/// Masking and shifting a word gives its digits, its low byte and its low
/// twelve bits.
proof fn lemma_fields(raw: u16)
    ensures
        (raw & 0xF000) >> 12 == raw / 0x1000,
        (raw & 0x0F00) >> 8 == raw / 0x100 % 16,
        (raw & 0x00F0) >> 4 == raw / 0x10 % 16,
        raw & 0x000F == raw % 16,
        raw & 0x00FF == raw % 0x100,
        raw & 0x0FFF == raw % 0x1000,
{
    assert((raw & 0xF000) >> 12 == raw / 0x1000) by (bit_vector);
    assert((raw & 0x0F00) >> 8 == raw / 0x100 % 16) by (bit_vector);
    assert((raw & 0x00F0) >> 4 == raw / 0x10 % 16) by (bit_vector);
    assert(raw & 0x000F == raw % 16) by (bit_vector);
    assert(raw & 0x00FF == raw % 0x100) by (bit_vector);
    assert(raw & 0x0FFF == raw % 0x1000) by (bit_vector);
}

impl Opcode {
    /// The four hexadecimal digits of the word, highest first.
    pub fn nibbles(&self) -> (d: (u8, u8, u8, u8))
        ensures
            d == digits(self.raw),
            d.0 < 16 && d.1 < 16 && d.2 < 16 && d.3 < 16,
    {
        let raw = self.raw;
        proof {
            lemma_fields(raw);
        }
        (
            ((raw & 0xF000) >> 12) as u8,
            ((raw & 0x0F00) >> 8) as u8,
            ((raw & 0x00F0) >> 4) as u8,
            (raw & 0x000F) as u8,
        )
    }

    /// The low byte of the word.
    pub fn nn(&self) -> (b: u8)
        ensures
            b == self.raw % 0x100,
    {
        proof {
            lemma_fields(self.raw);
        }
        (self.raw & 0x00FF) as u8
    }

    /// The low twelve bits of the word.
    pub fn nnn(&self) -> (a: u16)
        ensures
            a == self.raw % 0x1000,
    {
        proof {
            lemma_fields(self.raw);
        }
        self.raw & 0x0FFF
    }

    /// Decodes the word by its digits. A word that matches no pattern has
    /// no instruction; it is never taken for one that does nothing.
    pub fn decode(&self) -> (decoded: Option<Instruction>)
        ensures
            decoded == instruction_of(self.raw),
            decoded matches Some(i) ==> i.wf(),
    {
        let (d1, x, y, n) = self.nibbles();
        let nn = self.nn();
        let nnn = self.nnn();
        match (d1, x, y, n) {
            (0, 0, 0xE, 0) => Some(Instruction::ClearScreen),
            (0, 0, 0xE, 0xE) => Some(Instruction::Return),
            (1, _, _, _) => Some(Instruction::Jump { nnn }),
            (2, _, _, _) => Some(Instruction::Call { nnn }),
            (3, _, _, _) => Some(Instruction::SkipIfEqual { x, nn }),
            (4, _, _, _) => Some(Instruction::SkipIfNotEqual { x, nn }),
            (5, _, _, 0) => Some(Instruction::SkipIfSame { x, y }),
            (6, _, _, _) => Some(Instruction::Load { x, nn }),
            (7, _, _, _) => Some(Instruction::AddByte { x, nn }),
            (8, _, _, 0) => Some(Instruction::Move { x, y }),
            (8, _, _, 1) => Some(Instruction::Or { x, y }),
            (8, _, _, 2) => Some(Instruction::And { x, y }),
            (8, _, _, 3) => Some(Instruction::Xor { x, y }),
            (8, _, _, 4) => Some(Instruction::Add { x, y }),
            (8, _, _, 5) => Some(Instruction::Subtract { x, y }),
            (8, _, _, 6) => Some(Instruction::ShiftRight { x }),
            (8, _, _, 7) => Some(Instruction::SubtractFrom { x, y }),
            (8, _, _, 0xE) => Some(Instruction::ShiftLeft { x }),
            (9, _, _, 0) => Some(Instruction::SkipIfDifferent { x, y }),
            (0xA, _, _, _) => Some(Instruction::LoadIndex { nnn }),
            (0xB, _, _, _) => Some(Instruction::JumpOffset { nnn }),
            (0xC, _, _, _) => Some(Instruction::Random { x, nn }),
            (0xD, _, _, _) => Some(Instruction::Draw { x, y, n }),
            (0xE, _, 9, 0xE) => Some(Instruction::SkipIfKey { x }),
            (0xE, _, 0xA, 1) => Some(Instruction::SkipIfNoKey { x }),
            (0xF, _, 0, 7) => Some(Instruction::ReadDelay { x }),
            (0xF, _, 0, 0xA) => Some(Instruction::WaitKey { x }),
            (0xF, _, 1, 5) => Some(Instruction::SetDelay { x }),
            (0xF, _, 1, 8) => Some(Instruction::SetSound { x }),
            (0xF, _, 1, 0xE) => Some(Instruction::AddIndex { x }),
            (0xF, _, 2, 9) => Some(Instruction::Glyph { x }),
            (0xF, _, 3, 3) => Some(Instruction::Decimal { x }),
            (0xF, _, 5, 5) => Some(Instruction::Store { x }),
            (0xF, _, 6, 5) => Some(Instruction::Restore { x }),
            _ => None,
        }
    }
}

} // verus!
