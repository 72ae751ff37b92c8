//! The register file: seven 8-bit general registers plus the flags
//! register, with 16-bit paired views.
//!
//! A pair is pure composition of its two bytes, big-endian: reading BC
//! always reflects the current B and C, and writing BC writes through to
//! B and C. AF pairs the accumulator with the packed byte form of the
//! flags; its low nibble collapses to the four booleans on a write.

use vstd::prelude::*;
use crate::flags::FlagsRegister;
use crate::flags::lemma_flags_byte_mask;

verus! {

/// The composed 16-bit value of a high and a low register byte.
pub open spec fn spec_pair(hi: u8, lo: u8) -> u16 {
    ((hi as u16) << 8) | (lo as u16)
}

/// The high byte of a 16-bit value.
pub open spec fn spec_high_byte(v: u16) -> u8 {
    (v >> 8) as u8
}

/// The low byte of a 16-bit value.
pub open spec fn spec_low_byte(v: u16) -> u8 {
    (v & 0xFF) as u8
}

/// Law: composing the two bytes a value was split into gives the value
/// back, for every 16-bit value.
pub proof fn lemma_pair_of_bytes(v: u16)
    ensures
        spec_pair(spec_high_byte(v), spec_low_byte(v)) == v,
{
    assert(((((v >> 8) as u8) as u16) << 8) | (((v & 0xFF) as u8) as u16) == v) by (bit_vector);
}

/// The eight 8-bit register slots. Every named register is independent
/// storage; the 16-bit pairs are views, never separate state.
#[derive(Clone, Copy, PartialEq, Eq, Structural, Debug)]
#[verifier::ext_equal]
pub struct Registers {
    pub a: u8,
    pub b: u8,
    pub c: u8,
    pub d: u8,
    pub e: u8,
    pub f: FlagsRegister,
    pub h: u8,
    pub l: u8,
}

impl Registers {
    /// All registers zero and all flags cleared.
    pub open spec fn spec_init() -> Registers {
        Registers {
            a: 0, b: 0, c: 0, d: 0, e: 0,
            f: FlagsRegister::spec_clear(),
            h: 0, l: 0,
        }
    }

    pub open spec fn spec_get_bc(self) -> u16 {
        spec_pair(self.b, self.c)
    }

    pub open spec fn spec_get_de(self) -> u16 {
        spec_pair(self.d, self.e)
    }

    pub open spec fn spec_get_hl(self) -> u16 {
        spec_pair(self.h, self.l)
    }

    pub open spec fn spec_get_af(self) -> u16 {
        spec_pair(self.a, self.f.spec_to_byte())
    }

    pub open spec fn spec_with_bc(self, v: u16) -> Registers {
        Registers { b: spec_high_byte(v), c: spec_low_byte(v), ..self }
    }

    pub open spec fn spec_with_de(self, v: u16) -> Registers {
        Registers { d: spec_high_byte(v), e: spec_low_byte(v), ..self }
    }

    pub open spec fn spec_with_hl(self, v: u16) -> Registers {
        Registers { h: spec_high_byte(v), l: spec_low_byte(v), ..self }
    }

    pub open spec fn spec_with_af(self, v: u16) -> Registers {
        Registers {
            a: spec_high_byte(v),
            f: FlagsRegister::spec_from_byte(spec_low_byte(v)),
            ..self
        }
    }

    /// A register file with every register zero and every flag cleared.
    pub fn new() -> (r: Registers)
        ensures
            r == Registers::spec_init(),
    {
        Registers {
            a: 0, b: 0, c: 0, d: 0, e: 0,
            f: FlagsRegister { zero: false, subtract: false, half_carry: false, carry: false },
            h: 0, l: 0,
        }
    }

    /// The BC pair: B as the high byte, C as the low byte.
    pub fn get_bc(&self) -> (r: u16)
        ensures
            r == self.spec_get_bc(),
    {
        ((self.b as u16) << 8) | (self.c as u16)
    }

    /// Writes a 16-bit value through to B and C.
    pub fn set_bc(&mut self, value: u16)
        ensures
            *final(self) == old(self).spec_with_bc(value),
    {
        self.b = (value >> 8) as u8;
        self.c = (value & 0xFF) as u8;
    }

    /// The DE pair: D as the high byte, E as the low byte.
    pub fn get_de(&self) -> (r: u16)
        ensures
            r == self.spec_get_de(),
    {
        ((self.d as u16) << 8) | (self.e as u16)
    }

    /// Writes a 16-bit value through to D and E.
    pub fn set_de(&mut self, value: u16)
        ensures
            *final(self) == old(self).spec_with_de(value),
    {
        self.d = (value >> 8) as u8;
        self.e = (value & 0xFF) as u8;
    }

    /// The HL pair: H as the high byte, L as the low byte.
    pub fn get_hl(&self) -> (r: u16)
        ensures
            r == self.spec_get_hl(),
    {
        ((self.h as u16) << 8) | (self.l as u16)
    }

    /// Writes a 16-bit value through to H and L.
    pub fn set_hl(&mut self, value: u16)
        ensures
            *final(self) == old(self).spec_with_hl(value),
    {
        self.h = (value >> 8) as u8;
        self.l = (value & 0xFF) as u8;
    }

    /// The AF pair: the accumulator as the high byte, the packed flags
    /// byte as the low byte.
    pub fn get_af(&self) -> (r: u16)
        ensures
            r == self.spec_get_af(),
    {
        ((self.a as u16) << 8) | (self.f.to_byte() as u16)
    }

    /// Writes the high byte to the accumulator and unpacks the low byte
    /// into the flags; bits 3..0 of the value are discarded.
    pub fn set_af(&mut self, value: u16)
        ensures
            *final(self) == old(self).spec_with_af(value),
    {
        self.a = (value >> 8) as u8;
        self.f = FlagsRegister::from_byte((value & 0xFF) as u8);
    }
}

/// Law: writing a pair and reading it back gives the written value, for
/// every 16-bit value — for the BC, DE and HL pairs.
pub proof fn lemma_pair_round_trip(regs: Registers, v: u16)
    ensures
        regs.spec_with_bc(v).spec_get_bc() == v,
        regs.spec_with_de(v).spec_get_de() == v,
        regs.spec_with_hl(v).spec_get_hl() == v,
{
    lemma_pair_of_bytes(v);
}

/// Law: writing AF and reading it back gives the written value whenever
/// the value's low nibble is zero — only the four flag bits of the low
/// byte are representable, so other values collapse to `v & 0xFFF0`.
pub proof fn lemma_af_round_trip(regs: Registers, v: u16)
    requires
        v & 0x000F == 0,
    ensures
        regs.spec_with_af(v).spec_get_af() == v,
{
    let lo = spec_low_byte(v);
    lemma_flags_byte_mask(lo);
    assert(lo & 0xF0 == lo) by (bit_vector)
        requires
            lo == (v & 0xFF) as u8,
            v & 0x000F == 0,
    ;
    lemma_pair_of_bytes(v);
}

} // verus!
