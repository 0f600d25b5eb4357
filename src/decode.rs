//! Splitting a 16-bit instruction word into its operand fields and
//! classifying it as one of the machine's instructions.
use vstd::prelude::*;

verus! {

/// The operand fields of an instruction word.
#[derive(Clone, Copy, Debug, PartialEq, Eq, Structural)]
pub struct Operands {
    /// Low 12 bits: an address.
    pub nnn: u16,
    /// Low 8 bits: a byte constant.
    pub nn: u8,
    /// Low 4 bits: a nibble constant.
    pub n: u8,
    /// Bits 8 to 11: the first register index.
    pub x: u8,
    /// Bits 4 to 7: the second register index.
    pub y: u8,
}

/// The operand fields of `opcode`, each read off its bit positions.
pub open spec fn operands_of(opcode: u16) -> Operands {
    Operands {
        nnn: (opcode % 0x1000) as u16,
        nn: (opcode % 0x100) as u8,
        n: (opcode % 0x10) as u8,
        x: ((opcode / 0x100) % 0x10) as u8,
        y: ((opcode / 0x10) % 0x10) as u8,
    }
}

/// Splits `opcode` into its operand fields; every word decodes.
pub fn operands(opcode: u16) -> (f: Operands)
    ensures
        f == operands_of(opcode),
{
    proof {
        assert(opcode & 0x0FFF == opcode % 0x1000) by (bit_vector);
        assert(opcode & 0x00FF == opcode % 0x100) by (bit_vector);
        assert(opcode & 0x000F == opcode % 0x10) by (bit_vector);
        assert((opcode & 0x0F00) >> 8 == (opcode / 0x100) % 0x10) by (bit_vector);
        assert((opcode & 0x00F0) >> 4 == (opcode / 0x10) % 0x10) by (bit_vector);
    }
    Operands {
        nnn: opcode & 0x0FFF,
        nn: (opcode & 0x00FF) as u8,
        n: (opcode & 0x000F) as u8,
        x: ((opcode & 0x0F00) >> 8) as u8,
        y: ((opcode & 0x00F0) >> 4) as u8,
    }
}

/// One instruction of the machine, with the operands it uses.
#[derive(Clone, Copy, Debug, PartialEq, Eq, Structural)]
pub enum Instruction {
    /// `00E0`: clear the framebuffer.
    ClearScreen,
    /// `00EE`: return from a subroutine.
    Return,
    /// `1NNN`: jump to `nnn`.
    Jump { nnn: u16 },
    /// `2NNN`: call the subroutine at `nnn`.
    Call { nnn: u16 },
    /// `3XNN`: skip the next instruction if `VX == nn`.
    SkipIfEqualByte { x: u8, nn: u8 },
    /// `4XNN`: skip the next instruction if `VX != nn`.
    SkipIfNotEqualByte { x: u8, nn: u8 },
    /// `5XY0`: skip the next instruction if `VX == VY`.
    SkipIfEqual { x: u8, y: u8 },
    /// `6XNN`: `VX := nn`.
    SetByte { x: u8, nn: u8 },
    /// `7XNN`: `VX := VX + nn`, wrapping, flag untouched.
    AddByte { x: u8, nn: u8 },
    /// `8XY0`: `VX := VY`.
    Copy { x: u8, y: u8 },
    /// `8XY1`: `VX := VX | VY`.
    Or { x: u8, y: u8 },
    /// `8XY2`: `VX := VX & VY`.
    And { x: u8, y: u8 },
    /// `8XY3`: `VX := VX ^ VY`.
    Xor { x: u8, y: u8 },
    /// `8XY4`: `VX := VX + VY`, flag is the carry.
    Add { x: u8, y: u8 },
    /// `8XY5`: `VX := VX - VY`, flag is "no borrow".
    Sub { x: u8, y: u8 },
    /// `8XY6`: shift right by one, flag is the bit shifted out.
    ShiftRight { x: u8, y: u8 },
    /// `8XY7`: `VX := VY - VX`, flag is "no borrow".
    SubReversed { x: u8, y: u8 },
    /// `8XYE`: shift left by one, flag is the bit shifted out.
    ShiftLeft { x: u8, y: u8 },
    /// `9XY0`: skip the next instruction if `VX != VY`.
    SkipIfNotEqual { x: u8, y: u8 },
    /// `ANNN`: `I := nnn`.
    SetIndex { nnn: u16 },
    /// `BNNN`: jump to `nnn` plus a register.
    JumpWithOffset { x: u8, nnn: u16 },
    /// `CXNN`: `VX := random & nn`.
    Random { x: u8, nn: u8 },
    /// `DXYN`: draw an `n`-row sprite at `(VX, VY)`.
    Draw { x: u8, y: u8, n: u8 },
    /// `EX9E`: skip the next instruction if the key `VX` is held.
    SkipIfKey { x: u8 },
    /// `EXA1`: skip the next instruction if the key `VX` is not held.
    SkipIfNotKey { x: u8 },
    /// `FX07`: `VX := delay timer`.
    ReadDelay { x: u8 },
    /// `FX0A`: wait for a key press and store it in `VX`.
    WaitKey { x: u8 },
    /// `FX15`: `delay timer := VX`.
    SetDelay { x: u8 },
    /// `FX18`: `sound timer := VX`.
    SetSound { x: u8 },
    /// `FX1E`: `I := I + VX`, wrapping.
    AddIndex { x: u8 },
    /// `FX29`: `I :=` the glyph address of the digit in `VX`.
    Glyph { x: u8 },
    /// `FX33`: store the decimal digits of `VX` at `I`.
    Decimal { x: u8 },
    /// `FX55`: store `V0..=VX` at `I`.
    Store { x: u8 },
    /// `FX65`: load `V0..=VX` from `I`.
    Load { x: u8 },
    /// A word that matches no instruction.
    Unknown { opcode: u16 },
}

/// The instruction that `opcode` encodes: the top nibble picks the family,
/// and families `0`, `5`, `8`, `9`, `E` and `F` are told apart further by
/// the low nibble or the low byte.
pub open spec fn instruction_of(opcode: u16) -> Instruction {
    let f = operands_of(opcode);
    let (nnn, nn, n, x, y) = (f.nnn, f.nn, f.n, f.x, f.y);
    let family = opcode / 0x1000;
    if family == 0x0 {
        if opcode == 0x00E0 {
            Instruction::ClearScreen
        } else if opcode == 0x00EE {
            Instruction::Return
        } else {
            Instruction::Unknown { opcode }
        }
    } else if family == 0x1 {
        Instruction::Jump { nnn }
    } else if family == 0x2 {
        Instruction::Call { nnn }
    } else if family == 0x3 {
        Instruction::SkipIfEqualByte { x, nn }
    } else if family == 0x4 {
        Instruction::SkipIfNotEqualByte { x, nn }
    } else if family == 0x5 {
        if n == 0x0 {
            Instruction::SkipIfEqual { x, y }
        } else {
            Instruction::Unknown { opcode }
        }
    } else if family == 0x6 {
        Instruction::SetByte { x, nn }
    } else if family == 0x7 {
        Instruction::AddByte { x, nn }
    } else if family == 0x8 {
        if n == 0x0 {
            Instruction::Copy { x, y }
        } else if n == 0x1 {
            Instruction::Or { x, y }
        } else if n == 0x2 {
            Instruction::And { x, y }
        } else if n == 0x3 {
            Instruction::Xor { x, y }
        } else if n == 0x4 {
            Instruction::Add { x, y }
        } else if n == 0x5 {
            Instruction::Sub { x, y }
        } else if n == 0x6 {
            Instruction::ShiftRight { x, y }
        } else if n == 0x7 {
            Instruction::SubReversed { x, y }
        } else if n == 0xE {
            Instruction::ShiftLeft { x, y }
        } else {
            Instruction::Unknown { opcode }
        }
    } else if family == 0x9 {
        if n == 0x0 {
            Instruction::SkipIfNotEqual { x, y }
        } else {
            Instruction::Unknown { opcode }
        }
    } else if family == 0xA {
        Instruction::SetIndex { nnn }
    } else if family == 0xB {
        Instruction::JumpWithOffset { x, nnn }
    } else if family == 0xC {
        Instruction::Random { x, nn }
    } else if family == 0xD {
        Instruction::Draw { x, y, n }
    } else if family == 0xE {
        if nn == 0x9E {
            Instruction::SkipIfKey { x }
        } else if nn == 0xA1 {
            Instruction::SkipIfNotKey { x }
        } else {
            Instruction::Unknown { opcode }
        }
    } else {
        if nn == 0x07 {
            Instruction::ReadDelay { x }
        } else if nn == 0x0A {
            Instruction::WaitKey { x }
        } else if nn == 0x15 {
            Instruction::SetDelay { x }
        } else if nn == 0x18 {
            Instruction::SetSound { x }
        } else if nn == 0x1E {
            Instruction::AddIndex { x }
        } else if nn == 0x29 {
            Instruction::Glyph { x }
        } else if nn == 0x33 {
            Instruction::Decimal { x }
        } else if nn == 0x55 {
            Instruction::Store { x }
        } else if nn == 0x65 {
            Instruction::Load { x }
        } else {
            Instruction::Unknown { opcode }
        }
    }
}

/// Decodes `opcode` into the instruction it encodes.
pub fn decode(opcode: u16) -> (ins: Instruction)
    ensures
        ins == instruction_of(opcode),
{
    let f = operands(opcode);
    let (nnn, nn, n, x, y) = (f.nnn, f.nn, f.n, f.x, f.y);
    proof {
        assert(opcode >> 12 == opcode / 0x1000) by (bit_vector);
    }
    match opcode >> 12 {
        0x0 => match opcode {
            0x00E0 => Instruction::ClearScreen,
            0x00EE => Instruction::Return,
            _ => Instruction::Unknown { opcode },
        },
        0x1 => Instruction::Jump { nnn },
        0x2 => Instruction::Call { nnn },
        0x3 => Instruction::SkipIfEqualByte { x, nn },
        0x4 => Instruction::SkipIfNotEqualByte { x, nn },
        0x5 => match n {
            0x0 => Instruction::SkipIfEqual { x, y },
            _ => Instruction::Unknown { opcode },
        },
        0x6 => Instruction::SetByte { x, nn },
        0x7 => Instruction::AddByte { x, nn },
        0x8 => match n {
            0x0 => Instruction::Copy { x, y },
            0x1 => Instruction::Or { x, y },
            0x2 => Instruction::And { x, y },
            0x3 => Instruction::Xor { x, y },
            0x4 => Instruction::Add { x, y },
            0x5 => Instruction::Sub { x, y },
            0x6 => Instruction::ShiftRight { x, y },
            0x7 => Instruction::SubReversed { x, y },
            0xE => Instruction::ShiftLeft { x, y },
            _ => Instruction::Unknown { opcode },
        },
        0x9 => match n {
            0x0 => Instruction::SkipIfNotEqual { x, y },
            _ => Instruction::Unknown { opcode },
        },
        0xA => Instruction::SetIndex { nnn },
        0xB => Instruction::JumpWithOffset { x, nnn },
        0xC => Instruction::Random { x, nn },
        0xD => Instruction::Draw { x, y, n },
        0xE => match nn {
            0x9E => Instruction::SkipIfKey { x },
            0xA1 => Instruction::SkipIfNotKey { x },
            _ => Instruction::Unknown { opcode },
        },
        _ => match nn {
            0x07 => Instruction::ReadDelay { x },
            0x0A => Instruction::WaitKey { x },
            0x15 => Instruction::SetDelay { x },
            0x18 => Instruction::SetSound { x },
            0x1E => Instruction::AddIndex { x },
            0x29 => Instruction::Glyph { x },
            0x33 => Instruction::Decimal { x },
            0x55 => Instruction::Store { x },
            0x65 => Instruction::Load { x },
            _ => Instruction::Unknown { opcode },
        },
    }
}

} // verus!
