//! Memory access size encodings.
use vstd::prelude::*;

verus! {

pub const BYTE: u32 = 0x0;
pub const BYTE_BITS: u32 = 0x8;
pub const BYTE_ALIGNMENT: u32 = 0x1;
pub const HALFWORD: u32 = 0x1;
pub const HALFWORD_BITS: u32 = 0x10;
pub const HALFWORD_ALIGNMENT: u32 = 0x2;
pub const WORD: u32 = 0x2;
pub const WORD_BITS: u32 = 0x20;
pub const WORD_ALIGNMENT: u32 = 0x4;
pub const RESERVED: u32 = 0x3;

} // verus!
