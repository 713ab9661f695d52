//! Fields of the J-type format.
use vstd::prelude::*;

verus! {

pub const OFFSET26_SHIFT: u32 = 0x0;
pub const OFFSET26_WIDTH: u32 = 0x1A;
pub const OFFSET26_MASK: u32 = 0x03FFFFFF;

} // verus!
