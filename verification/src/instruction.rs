//! The instruction set and the opcode decoder.
//!
//! Instructions are a closed tagged union: one case per mnemonic, each
//! carrying only the operand selector it needs. The decoder maps a raw
//! opcode byte to exactly one instruction, or to a decode failure for a
//! byte with no entry in the table; it never panics, so the engine can
//! surface an unknown opcode to its caller.

use vstd::prelude::*;

verus! {

/// The 8-bit operand selectors of the arithmetic instructions.
#[derive(Clone, Copy, PartialEq, Eq, Structural, Debug)]
pub enum ArithmeticTarget {
    A,
    B,
    C,
    D,
    E,
    H,
    L,
}

/// The 16-bit register-pair selectors of the pair increment and
/// decrement instructions. AF is not addressable by them: a pair
/// increment must leave the flags alone, and AF's low byte is the flags.
#[derive(Clone, Copy, PartialEq, Eq, Structural, Debug)]
pub enum IncDecTarget {
    BC,
    DE,
    HL,
}

/// One decoded instruction: a mnemonic plus its operand selector.
#[derive(Clone, Copy, PartialEq, Eq, Structural, Debug)]
pub enum Instruction {
    /// Add an 8-bit register into the accumulator, setting all four flags.
    Add(ArithmeticTarget),
    /// Increment a register pair, wrapping, with no flag effect.
    Inc(IncDecTarget),
    /// Decrement a register pair, wrapping, with no flag effect.
    Dec(IncDecTarget),
}

impl Instruction {
    /// The opcode table: the one instruction a byte decodes to, or `None`
    /// for a byte with no entry.
    pub open spec fn spec_from_byte(byte: u8) -> Option<Instruction> {
        match byte {
            0x02 => Some(Instruction::Inc(IncDecTarget::BC)),
            0x13 => Some(Instruction::Inc(IncDecTarget::DE)),
            0x23 => Some(Instruction::Inc(IncDecTarget::HL)),
            0x0B => Some(Instruction::Dec(IncDecTarget::BC)),
            0x1B => Some(Instruction::Dec(IncDecTarget::DE)),
            0x2B => Some(Instruction::Dec(IncDecTarget::HL)),
            0x80 => Some(Instruction::Add(ArithmeticTarget::B)),
            0x81 => Some(Instruction::Add(ArithmeticTarget::C)),
            0x82 => Some(Instruction::Add(ArithmeticTarget::D)),
            0x83 => Some(Instruction::Add(ArithmeticTarget::E)),
            0x84 => Some(Instruction::Add(ArithmeticTarget::H)),
            0x85 => Some(Instruction::Add(ArithmeticTarget::L)),
            0x87 => Some(Instruction::Add(ArithmeticTarget::A)),
            _ => None,
        }
    }

    /// Decodes one opcode byte: exactly the table's entry for the byte,
    /// and `None` — never a default instruction — for a byte without one.
    pub fn from_byte(byte: u8) -> (r: Option<Instruction>)
        ensures
            r == Instruction::spec_from_byte(byte),
    {
        match byte {
            0x02 => Some(Instruction::Inc(IncDecTarget::BC)),
            0x13 => Some(Instruction::Inc(IncDecTarget::DE)),
            0x23 => Some(Instruction::Inc(IncDecTarget::HL)),
            0x0B => Some(Instruction::Dec(IncDecTarget::BC)),
            0x1B => Some(Instruction::Dec(IncDecTarget::DE)),
            0x2B => Some(Instruction::Dec(IncDecTarget::HL)),
            0x80 => Some(Instruction::Add(ArithmeticTarget::B)),
            0x81 => Some(Instruction::Add(ArithmeticTarget::C)),
            0x82 => Some(Instruction::Add(ArithmeticTarget::D)),
            0x83 => Some(Instruction::Add(ArithmeticTarget::E)),
            0x84 => Some(Instruction::Add(ArithmeticTarget::H)),
            0x85 => Some(Instruction::Add(ArithmeticTarget::L)),
            0x87 => Some(Instruction::Add(ArithmeticTarget::A)),
            _ => None,
        }
    }
}

/// Law: the opcode table is injective — two different bytes never decode
/// to the same instruction.
pub proof fn lemma_decode_injective(b1: u8, b2: u8)
    requires
        Instruction::spec_from_byte(b1) is Some,
        Instruction::spec_from_byte(b1) == Instruction::spec_from_byte(b2),
    ensures
        b1 == b2,
{
}

} // verus!
