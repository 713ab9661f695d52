use vstd::prelude::*;

verus! {

pub const ANDI: u32 = 0x0;
pub const ORI: u32 = 0x1;
pub const XORI: u32 = 0x2;

} // verus!
