//! Fields of the BF-type format.
use vstd::prelude::*;

verus! {

pub const COND_SHIFT: u32 = 0x16;
pub const COND_WIDTH: u32 = 0x4;
pub const COND_MASK: u32 = 0x03C00000;
pub const OFFSET22_SHIFT: u32 = 0x0;
pub const OFFSET22_WIDTH: u32 = 0x16;
pub const OFFSET22_MASK: u32 = 0x003FFFFF;

} // verus!
