//! Fields of the I-type format.
use vstd::prelude::*;

verus! {

pub const MODE_SHIFT: u32 = 0x18;
pub const MODE_WIDTH: u32 = 0x2;
pub const MODE_MASK: u32 = 0x03000000;
pub const IMM16_SHIFT: u32 = 0x8;
pub const IMM16_WIDTH: u32 = 0x10;
pub const IMM16_MASK: u32 = 0x00FFFF00;
pub const RD_SHIFT: u32 = 0x4;
pub const RD_WIDTH: u32 = 0x4;
pub const RD_MASK: u32 = 0x000000F0;
pub const RA_SHIFT: u32 = 0x0;
pub const RA_WIDTH: u32 = 0x4;
pub const RA_MASK: u32 = 0x0000000F;

} // verus!
