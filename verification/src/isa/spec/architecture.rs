//! Architectural parameters.
use vstd::prelude::*;

verus! {

pub const WORD_BITS: u32 = 0x20;
pub const ADDRESS_BITS: u32 = 0x20;
pub const INSTRUCTION_BITS: u32 = 0x20;
pub const OPCODE_SHIFT: u32 = 0x1A;
pub const OPCODE_WIDTH: u32 = 0x6;
pub const OPCODE_MASK: u32 = 0x3F;

} // verus!
