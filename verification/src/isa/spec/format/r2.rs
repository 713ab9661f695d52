//! Fields of the R2-type format.
use vstd::prelude::*;

verus! {

pub const FUNC_SHIFT: u32 = 0x10;
pub const FUNC_WIDTH: u32 = 0xA;
pub const FUNC_MASK: u32 = 0x03FF0000;
pub const RD0_SHIFT: u32 = 0xC;
pub const RD0_WIDTH: u32 = 0x4;
pub const RD0_MASK: u32 = 0x0000F000;
pub const RD1_SHIFT: u32 = 0x8;
pub const RD1_WIDTH: u32 = 0x4;
pub const RD1_MASK: u32 = 0x00000F00;
pub const RA_SHIFT: u32 = 0x4;
pub const RA_WIDTH: u32 = 0x4;
pub const RA_MASK: u32 = 0x000000F0;
pub const RB_SHIFT: u32 = 0x0;
pub const RB_WIDTH: u32 = 0x4;
pub const RB_MASK: u32 = 0x0000000F;

} // verus!
