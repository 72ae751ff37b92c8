//! An instruction decode/execute core for an 8-bit accumulator machine:
//! a register file with paired 16-bit views, a packed condition-flags
//! register, a byte-addressable memory bus over the full 16-bit address
//! space, an opcode decoder, and the fetch-decode-execute engine.

pub mod cpu;
pub mod flags;
pub mod instruction;
pub mod memory;
pub mod registers;
