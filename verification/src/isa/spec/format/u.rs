//! Fields of the U-type format.
use vstd::prelude::*;

verus! {

pub const MODE_SHIFT: u32 = 0x14;
pub const MODE_WIDTH: u32 = 0x6;
pub const MODE_MASK: u32 = 0x03F00000;
pub const IMM16_SHIFT: u32 = 0x4;
pub const IMM16_WIDTH: u32 = 0x10;
pub const IMM16_MASK: u32 = 0x000FFFF0;
pub const RD_SHIFT: u32 = 0x0;
pub const RD_WIDTH: u32 = 0x4;
pub const RD_MASK: u32 = 0x0000000F;

} // verus!
