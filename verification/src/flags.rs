//! The four condition flags and their packed single-byte form.
//!
//! The booleans are the canonical in-engine representation; the byte form
//! exists only at the AF-pair boundary. Bit layout of the byte: bit 7 is
//! zero, bit 6 is subtract, bit 5 is half-carry, bit 4 is carry; the low
//! nibble is always zero when packing and is ignored when unpacking.

use vstd::prelude::*;

verus! {

/// The condition flags recorded by arithmetic and logic operations.
#[derive(Clone, Copy, PartialEq, Eq, Structural, Debug)]
#[verifier::ext_equal]
pub struct FlagsRegister {
    pub zero: bool,
    pub subtract: bool,
    pub half_carry: bool,
    pub carry: bool,
}

impl FlagsRegister {
    /// All four flags cleared.
    pub open spec fn spec_clear() -> FlagsRegister {
        FlagsRegister { zero: false, subtract: false, half_carry: false, carry: false }
    }

    /// The packed byte: bit 7 = zero, bit 6 = subtract, bit 5 = half-carry,
    /// bit 4 = carry, low nibble zero.
    pub open spec fn spec_to_byte(self) -> u8 {
        (if self.zero { 0x80u8 } else { 0u8 })
        | (if self.subtract { 0x40u8 } else { 0u8 })
        | (if self.half_carry { 0x20u8 } else { 0u8 })
        | (if self.carry { 0x10u8 } else { 0u8 })
    }

    /// The flags read out of a packed byte; bits 3..0 are ignored.
    pub open spec fn spec_from_byte(byte: u8) -> FlagsRegister {
        FlagsRegister {
            zero: byte & 0x80 != 0,
            subtract: byte & 0x40 != 0,
            half_carry: byte & 0x20 != 0,
            carry: byte & 0x10 != 0,
        }
    }

    /// Packs the four flags into their single-byte form.
    pub fn to_byte(&self) -> (r: u8)
        ensures
            r == self.spec_to_byte(),
    {
        (if self.zero { 0x80u8 } else { 0u8 })
        | (if self.subtract { 0x40u8 } else { 0u8 })
        | (if self.half_carry { 0x20u8 } else { 0u8 })
        | (if self.carry { 0x10u8 } else { 0u8 })
    }

    /// Unpacks a byte into the four flags, ignoring the low nibble.
    pub fn from_byte(byte: u8) -> (r: FlagsRegister)
        ensures
            r == Self::spec_from_byte(byte),
    {
        FlagsRegister {
            zero: byte & 0x80 != 0,
            subtract: byte & 0x40 != 0,
            half_carry: byte & 0x20 != 0,
            carry: byte & 0x10 != 0,
        }
    }
}

/// Law: packing then unpacking returns the same four flags, for every
/// combination of the four booleans.
pub proof fn lemma_flags_round_trip(f: FlagsRegister)
    ensures
        FlagsRegister::spec_from_byte(f.spec_to_byte()) == f,
{
    let z: u8 = if f.zero { 0x80 } else { 0 };
    let s: u8 = if f.subtract { 0x40 } else { 0 };
    let h: u8 = if f.half_carry { 0x20 } else { 0 };
    let c: u8 = if f.carry { 0x10 } else { 0 };
    assert((z | s | h | c) & 0x80 == z
        && (z | s | h | c) & 0x40 == s
        && (z | s | h | c) & 0x20 == h
        && (z | s | h | c) & 0x10 == c) by (bit_vector)
        requires
            z == 0x80 || z == 0,
            s == 0x40 || s == 0,
            h == 0x20 || h == 0,
            c == 0x10 || c == 0,
    ;
}

/// Law: unpacking then packing forces the low nibble to zero and keeps the
/// high nibble: the result is `byte & 0xF0`, for every byte.
pub proof fn lemma_flags_byte_mask(byte: u8)
    ensures
        FlagsRegister::spec_from_byte(byte).spec_to_byte() == byte & 0xF0,
{
    assert(((if byte & 0x80 != 0 { 0x80u8 } else { 0u8 })
        | (if byte & 0x40 != 0 { 0x40u8 } else { 0u8 })
        | (if byte & 0x20 != 0 { 0x20u8 } else { 0u8 })
        | (if byte & 0x10 != 0 { 0x10u8 } else { 0u8 })) == byte & 0xF0) by (bit_vector);
}

} // verus!
