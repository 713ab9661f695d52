//! Fields of the M-type format.
use vstd::prelude::*;

verus! {

pub const SX_SHIFT: u32 = 0x19;
pub const SX_WIDTH: u32 = 0x1;
pub const SX_MASK: u32 = 0x02000000;
pub const SIZE_SHIFT: u32 = 0x17;
pub const SIZE_WIDTH: u32 = 0x2;
pub const SIZE_MASK: u32 = 0x01800000;
pub const OFFSET15_SHIFT: u32 = 0x8;
pub const OFFSET15_WIDTH: u32 = 0xF;
pub const OFFSET15_MASK: u32 = 0x007FFF00;
pub const RD_RS_SHIFT: u32 = 0x4;
pub const RD_RS_WIDTH: u32 = 0x4;
pub const RD_RS_MASK: u32 = 0x000000F0;
pub const BASE_SHIFT: u32 = 0x0;
pub const BASE_WIDTH: u32 = 0x4;
pub const BASE_MASK: u32 = 0x0000000F;

} // verus!
