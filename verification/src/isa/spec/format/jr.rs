//! Fields of the JR-type format.
use vstd::prelude::*;

verus! {

pub const FUNC_SHIFT: u32 = 0x8;
pub const FUNC_WIDTH: u32 = 0x12;
pub const FUNC_MASK: u32 = 0x03FFFF00;
pub const RD_SHIFT: u32 = 0x4;
pub const RD_WIDTH: u32 = 0x4;
pub const RD_MASK: u32 = 0x000000F0;
pub const TARGET_SHIFT: u32 = 0x0;
pub const TARGET_WIDTH: u32 = 0x4;
pub const TARGET_MASK: u32 = 0x0000000F;

} // verus!
