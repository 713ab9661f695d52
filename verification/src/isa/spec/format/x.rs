//! Fields of the X-type format.
use vstd::prelude::*;

verus! {

pub const SYSFUNC_SHIFT: u32 = 0x8;
pub const SYSFUNC_WIDTH: u32 = 0x12;
pub const SYSFUNC_MASK: u32 = 0x03FFFF00;
pub const RD_SHIFT: u32 = 0x4;
pub const RD_WIDTH: u32 = 0x4;
pub const RD_MASK: u32 = 0x000000F0;
pub const RS_SHIFT: u32 = 0x0;
pub const RS_WIDTH: u32 = 0x4;
pub const RS_MASK: u32 = 0x0000000F;
pub const SYSOP_SHIFT: u32 = 0x14;
pub const SYSOP_WIDTH: u32 = 0x6;
pub const SYSOP_MASK: u32 = 0x03F00000;
pub const PAYLOAD_SHIFT: u32 = 0x8;
pub const PAYLOAD_WIDTH: u32 = 0xC;
pub const PAYLOAD_MASK: u32 = 0x000FFF00;

} // verus!
