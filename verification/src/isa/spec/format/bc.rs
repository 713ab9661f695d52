//! Fields of the BC-type format.
use vstd::prelude::*;

verus! {

pub const COND_SHIFT: u32 = 0x16;
pub const COND_WIDTH: u32 = 0x4;
pub const COND_MASK: u32 = 0x03C00000;
pub const OFFSET14_SHIFT: u32 = 0x8;
pub const OFFSET14_WIDTH: u32 = 0xE;
pub const OFFSET14_MASK: u32 = 0x003FFF00;
pub const RA_SHIFT: u32 = 0x4;
pub const RA_WIDTH: u32 = 0x4;
pub const RA_MASK: u32 = 0x000000F0;
pub const RB_SHIFT: u32 = 0x0;
pub const RB_WIDTH: u32 = 0x4;
pub const RB_MASK: u32 = 0x0000000F;

} // verus!
