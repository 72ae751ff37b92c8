//! The execution engine: the fetch-decode-execute loop over a register
//! file, a program counter and a memory bus.
//!
//! One step fetches the byte at the program counter, decodes it, executes
//! the instruction and commits the next program counter. An unknown
//! opcode is surfaced to the caller as a decode failure carrying the
//! offending address and byte, with the machine state left untouched —
//! the engine never guesses and never skips.

use vstd::prelude::*;
use crate::flags::FlagsRegister;
use crate::instruction::ArithmeticTarget;
use crate::instruction::IncDecTarget;
use crate::instruction::Instruction;
use crate::memory::MemoryBus;
use crate::registers::Registers;

verus! {

/// A fault surfaced by the engine to the driving caller.
#[derive(Clone, Copy, PartialEq, Eq, Structural, Debug)]
pub enum CpuError {
    /// The fetched byte has no entry in the opcode table. Carries the
    /// address it was fetched from and the byte itself, so the caller can
    /// tell a table gap from a corrupt program.
    DecodeFailure { address: u16, opcode: u8 },
}

/// Addition modulo 2^8.
pub open spec fn spec_wrapping_add8(x: u8, y: u8) -> u8 {
    if x + y > 0xFF {
        (x + y - 0x100) as u8
    } else {
        (x + y) as u8
    }
}

/// Increment modulo 2^16.
pub open spec fn spec_wrapping_inc16(v: u16) -> u16 {
    if v == 0xFFFF {
        0
    } else {
        (v + 1) as u16
    }
}

/// Decrement modulo 2^16.
pub open spec fn spec_wrapping_dec16(v: u16) -> u16 {
    if v == 0 {
        0xFFFF
    } else {
        (v - 1) as u16
    }
}

/// The four flags an 8-bit add of `value` into accumulator `a` produces:
/// zero iff the wrapped sum is zero; subtract false; half-carry iff the
/// low nibbles alone carry out of bit 3; carry iff the mathematical sum
/// exceeds 0xFF.
pub open spec fn spec_add_flags(a: u8, value: u8) -> FlagsRegister {
    FlagsRegister {
        zero: spec_wrapping_add8(a, value) == 0,
        subtract: false,
        half_carry: (a & 0xF) + (value & 0xF) > 0xF,
        carry: a + value > 0xFF,
    }
}

/// The value an 8-bit operand selector reads from the register file.
pub open spec fn spec_target_value(regs: Registers, target: ArithmeticTarget) -> u8 {
    match target {
        ArithmeticTarget::A => regs.a,
        ArithmeticTarget::B => regs.b,
        ArithmeticTarget::C => regs.c,
        ArithmeticTarget::D => regs.d,
        ArithmeticTarget::E => regs.e,
        ArithmeticTarget::H => regs.h,
        ArithmeticTarget::L => regs.l,
    }
}

/// The composed 16-bit value a pair selector reads from the register file.
pub open spec fn spec_pair_value(regs: Registers, pair: IncDecTarget) -> u16 {
    match pair {
        IncDecTarget::BC => regs.spec_get_bc(),
        IncDecTarget::DE => regs.spec_get_de(),
        IncDecTarget::HL => regs.spec_get_hl(),
    }
}

/// The register file after writing a 16-bit value through a pair selector.
pub open spec fn spec_with_pair(regs: Registers, pair: IncDecTarget, v: u16) -> Registers {
    match pair {
        IncDecTarget::BC => regs.spec_with_bc(v),
        IncDecTarget::DE => regs.spec_with_de(v),
        IncDecTarget::HL => regs.spec_with_hl(v),
    }
}

/// The register file an instruction leaves behind. An 8-bit add updates
/// the accumulator and reassigns all four flags as a unit; a pair
/// increment or decrement wraps the composed value and touches no flag.
pub open spec fn spec_execute(regs: Registers, instruction: Instruction) -> Registers {
    match instruction {
        Instruction::Add(target) => {
            let value = spec_target_value(regs, target);
            Registers {
                a: spec_wrapping_add8(regs.a, value),
                f: spec_add_flags(regs.a, value),
                ..regs
            }
        },
        Instruction::Inc(pair) => spec_with_pair(
            regs,
            pair,
            spec_wrapping_inc16(spec_pair_value(regs, pair)),
        ),
        Instruction::Dec(pair) => spec_with_pair(
            regs,
            pair,
            spec_wrapping_dec16(spec_pair_value(regs, pair)),
        ),
    }
}

/// Law: a 16-bit pair increment or decrement leaves every flag — and the
/// accumulator — exactly as it was, unlike the 8-bit arithmetic
/// instructions.
pub proof fn lemma_pair_inc_dec_preserve_flags(regs: Registers, pair: IncDecTarget)
    ensures
        spec_execute(regs, Instruction::Inc(pair)).f == regs.f,
        spec_execute(regs, Instruction::Dec(pair)).f == regs.f,
        spec_execute(regs, Instruction::Inc(pair)).a == regs.a,
        spec_execute(regs, Instruction::Dec(pair)).a == regs.a,
{
}

/// The execution engine: register file, program counter and memory bus.
/// There is no other state.
pub struct CPU {
    pub registers: Registers,
    pub pc: u16,
    pub bus: MemoryBus,
}

impl CPU {
    /// Well-formed: the bus covers the full 16-bit address space.
    pub open spec fn wf(self) -> bool {
        self.bus.wf()
    }

    /// An engine with zeroed registers, cleared flags, the program
    /// counter at 0x0000 and every memory address holding zero. A loader
    /// fills the bus through `write_byte` before the run loop starts.
    pub fn new() -> (r: CPU)
        ensures
            r.wf(),
            r.registers == Registers::spec_init(),
            r.pc == 0,
            forall|i: int| 0 <= i < 0x10000 ==> r.bus.contents()[i] == 0,
    {
        CPU { registers: Registers::new(), pc: 0, bus: MemoryBus::new() }
    }

    /// Adds a value into the accumulator: modulo-256 sum into A, and all
    /// four flags reassigned together, never partially.
    fn add(&mut self, value: u8)
        ensures
            final(self).registers == (Registers {
                a: spec_wrapping_add8(old(self).registers.a, value),
                f: spec_add_flags(old(self).registers.a, value),
                ..old(self).registers
            }),
            final(self).pc == old(self).pc,
            final(self).bus == old(self).bus,
    {
        let a = self.registers.a;
        proof {
            assert(a & 0xF <= 0xF && value & 0xF <= 0xF) by (bit_vector);
        }
        let sum: u16 = a as u16 + value as u16;
        let new_value: u8 = (sum % 0x100) as u8;
        self.registers.f = FlagsRegister {
            zero: new_value == 0,
            subtract: false,
            half_carry: (a & 0xF) + (value & 0xF) > 0xF,
            carry: sum > 0xFF,
        };
        self.registers.a = new_value;
    }

    /// Executes one decoded instruction: mutates the register file as
    /// `spec_execute` says, leaves the bus and the committed program
    /// counter alone, and returns the next program counter — the current
    /// one advanced by the instruction's one-byte length, wrapping
    /// modulo 2^16.
    pub fn execute(&mut self, instruction: Instruction) -> (next_pc: u16)
        ensures
            final(self).registers == spec_execute(old(self).registers, instruction),
            final(self).pc == old(self).pc,
            final(self).bus == old(self).bus,
            next_pc == spec_wrapping_inc16(old(self).pc),
    {
        match instruction {
            Instruction::Add(target) => {
                let value = match target {
                    ArithmeticTarget::A => self.registers.a,
                    ArithmeticTarget::B => self.registers.b,
                    ArithmeticTarget::C => self.registers.c,
                    ArithmeticTarget::D => self.registers.d,
                    ArithmeticTarget::E => self.registers.e,
                    ArithmeticTarget::H => self.registers.h,
                    ArithmeticTarget::L => self.registers.l,
                };
                self.add(value);
            },
            Instruction::Inc(pair) => {
                match pair {
                    IncDecTarget::BC => {
                        let v = self.registers.get_bc();
                        self.registers.set_bc(v.wrapping_add(1));
                    },
                    IncDecTarget::DE => {
                        let v = self.registers.get_de();
                        self.registers.set_de(v.wrapping_add(1));
                    },
                    IncDecTarget::HL => {
                        let v = self.registers.get_hl();
                        self.registers.set_hl(v.wrapping_add(1));
                    },
                }
            },
            Instruction::Dec(pair) => {
                match pair {
                    IncDecTarget::BC => {
                        let v = self.registers.get_bc();
                        self.registers.set_bc(v.wrapping_sub(1));
                    },
                    IncDecTarget::DE => {
                        let v = self.registers.get_de();
                        self.registers.set_de(v.wrapping_sub(1));
                    },
                    IncDecTarget::HL => {
                        let v = self.registers.get_hl();
                        self.registers.set_hl(v.wrapping_sub(1));
                    },
                }
            },
        }
        self.pc.wrapping_add(1)
    }

    /// One fetch-decode-execute iteration. Fetches the byte at the
    /// program counter; if it decodes, executes it and commits the next
    /// program counter; if it does not, returns the decode failure with
    /// the offending address and byte and changes nothing.
    pub fn step(&mut self) -> (r: Result<(), CpuError>)
        requires
            old(self).wf(),
        ensures
            final(self).wf(),
            final(self).bus == old(self).bus,
            match Instruction::spec_from_byte(old(self).bus.contents()[old(self).pc as int]) {
                Some(instruction) => {
                    &&& r is Ok
                    &&& final(self).registers == spec_execute(old(self).registers, instruction)
                    &&& final(self).pc == spec_wrapping_inc16(old(self).pc)
                },
                None => {
                    &&& r == Err::<(), CpuError>(CpuError::DecodeFailure {
                        address: old(self).pc,
                        opcode: old(self).bus.contents()[old(self).pc as int],
                    })
                    &&& *final(self) == *old(self)
                },
            },
    {
        let opcode = self.bus.read_byte(self.pc);
        match Instruction::from_byte(opcode) {
            Some(instruction) => {
                let next_pc = self.execute(instruction);
                self.pc = next_pc;
                Ok(())
            },
            None => Err(CpuError::DecodeFailure { address: self.pc, opcode }),
        }
    }
}

} // verus!
