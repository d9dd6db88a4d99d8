//! The instruction set: which nibble patterns name an instruction.
use vstd::prelude::*;

verus! {

/// The four nibbles of an instruction word, most significant first.
pub type Nibbles = (u8, u8, u8, u8);

/// One entry of the instruction table. Operands are not stored here: they
/// are read from the nibbles when the instruction runs.
#[derive(Debug, Clone, Copy, PartialEq, Eq, Structural)]
pub enum Opcode {
    /// `00E0`
    ClearScreen,
    /// `00EE`
    Return,
    /// `1NNN`
    Jump,
    /// `2NNN`
    Call,
    /// `3XNN`
    SkipEqualByte,
    /// `4XNN`
    SkipNotEqualByte,
    /// `5XY0`
    SkipEqual,
    /// `6XNN`
    LoadByte,
    /// `7XNN`
    AddByte,
    /// `8XY0`
    Move,
    /// `8XY1`
    Or,
    /// `8XY2`
    And,
    /// `8XY3`
    Xor,
    /// `8XY4`
    AddCarry,
    /// `8XY5`
    SubBorrow,
    /// `8XY6`
    ShiftRight,
    /// `8XY7`
    SubReverse,
    /// `8XYE`
    ShiftLeft,
    /// `9XY0`
    SkipNotEqual,
    /// `ANNN`
    LoadIndex,
    /// `BNNN`
    JumpOffset,
    /// `CXNN`
    Random,
    /// `DXYN`
    Draw,
    /// `EX9E`
    SkipKey,
    /// `EXA1`
    SkipNoKey,
    /// `FX07`
    ReadDelay,
    /// `FX0A`
    WaitKey,
    /// `FX15`
    SetDelay,
    /// `FX18`
    SetSound,
    /// `FX1E`
    AddIndex,
    /// `FX29`
    FontAddress,
    /// `FX33`
    StoreBcd,
    /// `FX55`
    StoreRegisters,
    /// `FX65`
    LoadRegisters,
}

/// Every component is a 4-bit value.
pub open spec fn nibbles_valid(op: Nibbles) -> bool {
    op.0 < 16 && op.1 < 16 && op.2 < 16 && op.3 < 16
}

/// The instruction table. A pattern that is not listed names no instruction.
pub open spec fn decode(op: Nibbles) -> Option<Opcode> {
    match op {
        (0x0, 0x0, 0xE, 0x0) => Some(Opcode::ClearScreen),
        (0x0, 0x0, 0xE, 0xE) => Some(Opcode::Return),
        (0x1, _, _, _) => Some(Opcode::Jump),
        (0x2, _, _, _) => Some(Opcode::Call),
        (0x3, _, _, _) => Some(Opcode::SkipEqualByte),
        (0x4, _, _, _) => Some(Opcode::SkipNotEqualByte),
        (0x5, _, _, 0x0) => Some(Opcode::SkipEqual),
        (0x6, _, _, _) => Some(Opcode::LoadByte),
        (0x7, _, _, _) => Some(Opcode::AddByte),
        (0x8, _, _, 0x0) => Some(Opcode::Move),
        (0x8, _, _, 0x1) => Some(Opcode::Or),
        (0x8, _, _, 0x2) => Some(Opcode::And),
        (0x8, _, _, 0x3) => Some(Opcode::Xor),
        (0x8, _, _, 0x4) => Some(Opcode::AddCarry),
        (0x8, _, _, 0x5) => Some(Opcode::SubBorrow),
        (0x8, _, _, 0x6) => Some(Opcode::ShiftRight),
        (0x8, _, _, 0x7) => Some(Opcode::SubReverse),
        (0x8, _, _, 0xE) => Some(Opcode::ShiftLeft),
        (0x9, _, _, 0x0) => Some(Opcode::SkipNotEqual),
        (0xA, _, _, _) => Some(Opcode::LoadIndex),
        (0xB, _, _, _) => Some(Opcode::JumpOffset),
        (0xC, _, _, _) => Some(Opcode::Random),
        (0xD, _, _, _) => Some(Opcode::Draw),
        (0xE, _, 0x9, 0xE) => Some(Opcode::SkipKey),
        (0xE, _, 0xA, 0x1) => Some(Opcode::SkipNoKey),
        (0xF, _, 0x0, 0x7) => Some(Opcode::ReadDelay),
        (0xF, _, 0x0, 0xA) => Some(Opcode::WaitKey),
        (0xF, _, 0x1, 0x5) => Some(Opcode::SetDelay),
        (0xF, _, 0x1, 0x8) => Some(Opcode::SetSound),
        (0xF, _, 0x1, 0xE) => Some(Opcode::AddIndex),
        (0xF, _, 0x2, 0x9) => Some(Opcode::FontAddress),
        (0xF, _, 0x3, 0x3) => Some(Opcode::StoreBcd),
        (0xF, _, 0x5, 0x5) => Some(Opcode::StoreRegisters),
        (0xF, _, 0x6, 0x5) => Some(Opcode::LoadRegisters),
        _ => None,
    }
}

/// The 16-bit instruction word that the nibbles spell.
pub open spec fn word_of(op: Nibbles) -> int {
    op.0 * 4096 + op.1 * 256 + op.2 * 16 + op.3
}

/// Looks the nibbles up in the instruction table.
pub fn decode_nibbles(op: Nibbles) -> (kind: Option<Opcode>)
    ensures
        kind == decode(op),
{
    let low: u8 = op.3;
    match op.0 {
        0x0 => {
            if op.1 == 0x0 && op.2 == 0xE {
                match low {
                    0x0 => Some(Opcode::ClearScreen),
                    0xE => Some(Opcode::Return),
                    _ => None,
                }
            } else {
                None
            }
        },
        0x1 => Some(Opcode::Jump),
        0x2 => Some(Opcode::Call),
        0x3 => Some(Opcode::SkipEqualByte),
        0x4 => Some(Opcode::SkipNotEqualByte),
        0x5 => if low == 0x0 {
            Some(Opcode::SkipEqual)
        } else {
            None
        },
        0x6 => Some(Opcode::LoadByte),
        0x7 => Some(Opcode::AddByte),
        0x8 => match low {
            0x0 => Some(Opcode::Move),
            0x1 => Some(Opcode::Or),
            0x2 => Some(Opcode::And),
            0x3 => Some(Opcode::Xor),
            0x4 => Some(Opcode::AddCarry),
            0x5 => Some(Opcode::SubBorrow),
            0x6 => Some(Opcode::ShiftRight),
            0x7 => Some(Opcode::SubReverse),
            0xE => Some(Opcode::ShiftLeft),
            _ => None,
        },
        0x9 => if low == 0x0 {
            Some(Opcode::SkipNotEqual)
        } else {
            None
        },
        0xA => Some(Opcode::LoadIndex),
        0xB => Some(Opcode::JumpOffset),
        0xC => Some(Opcode::Random),
        0xD => Some(Opcode::Draw),
        0xE => {
            if op.2 == 0x9 && low == 0xE {
                Some(Opcode::SkipKey)
            } else if op.2 == 0xA && low == 0x1 {
                Some(Opcode::SkipNoKey)
            } else {
                None
            }
        },
        0xF => match (op.2, low) {
            (0x0, 0x7) => Some(Opcode::ReadDelay),
            (0x0, 0xA) => Some(Opcode::WaitKey),
            (0x1, 0x5) => Some(Opcode::SetDelay),
            (0x1, 0x8) => Some(Opcode::SetSound),
            (0x1, 0xE) => Some(Opcode::AddIndex),
            (0x2, 0x9) => Some(Opcode::FontAddress),
            (0x3, 0x3) => Some(Opcode::StoreBcd),
            (0x5, 0x5) => Some(Opcode::StoreRegisters),
            (0x6, 0x5) => Some(Opcode::LoadRegisters),
            _ => None,
        },
        _ => None,
    }
}

/// Packs the nibbles back into the 16-bit instruction word.
pub fn opcode_word(op: Nibbles) -> (word: u16)
    requires
        nibbles_valid(op),
    ensures
        word == word_of(op),
{
    let a: u16 = op.0 as u16;
    let b: u16 = op.1 as u16;
    let c: u16 = op.2 as u16;
    let d: u16 = op.3 as u16;
    a * 4096 + b * 256 + c * 16 + d
}

} // verus!
