//! The memory bus: a byte-addressable store over the full 16-bit address
//! space, 0x0000 through 0xFFFF inclusive.
//!
//! The backing store holds exactly 0x10000 bytes, so every address a u16
//! can express is in range and reads and writes are total. The core treats
//! the bus as flat memory; memory-mapped peripherals would intercept
//! address ranges behind this same read/write surface.

use vstd::prelude::*;

verus! {

/// A flat byte store covering every 16-bit address.
pub struct MemoryBus {
    mem: Vec<u8>,
}

impl MemoryBus {
    /// The stored bytes, one per address from 0x0000 to 0xFFFF.
    pub closed spec fn contents(self) -> Seq<u8> {
        self.mem@
    }

    /// Well-formed: the store covers the full 16-bit address space.
    pub open spec fn wf(self) -> bool {
        self.contents().len() == 0x10000
    }

    /// A bus with every address holding zero.
    pub fn new() -> (r: MemoryBus)
        ensures
            r.wf(),
            forall|i: int| 0 <= i < 0x10000 ==> r.contents()[i] == 0,
    {
        let mut mem: Vec<u8> = Vec::new();
        while mem.len() < 0x10000
            invariant
                mem@.len() <= 0x10000,
                forall|i: int| 0 <= i < mem@.len() ==> mem@[i] == 0,
            decreases 0x10000 - mem@.len(),
        {
            mem.push(0);
        }
        MemoryBus { mem }
    }

    /// The byte stored at an address.
    pub fn read_byte(&self, address: u16) -> (r: u8)
        requires
            self.wf(),
        ensures
            r == self.contents()[address as int],
    {
        self.mem[address as usize]
    }

    /// Stores a byte at an address, leaving every other address unchanged.
    pub fn write_byte(&mut self, address: u16, value: u8)
        requires
            old(self).wf(),
        ensures
            final(self).wf(),
            final(self).contents() == old(self).contents().update(address as int, value),
    {
        self.mem.set(address as usize, value);
    }
}

} // verus!
