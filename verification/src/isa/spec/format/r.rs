//! Fields of the R-type format.
use vstd::prelude::*;

verus! {

pub const FUNC_SHIFT: u32 = 0xC;
pub const FUNC_WIDTH: u32 = 0xE;
pub const FUNC_MASK: u32 = 0x03FFF000;
pub const RD_SHIFT: u32 = 0x8;
pub const RD_WIDTH: u32 = 0x4;
pub const RD_MASK: u32 = 0x00000F00;
pub const RA_SHIFT: u32 = 0x4;
pub const RA_WIDTH: u32 = 0x4;
pub const RA_MASK: u32 = 0x000000F0;
pub const RB_SHIFT: u32 = 0x0;
pub const RB_WIDTH: u32 = 0x4;
pub const RB_MASK: u32 = 0x0000000F;

} // verus!
