use vstd::prelude::*;

verus! {

pub const BTST: u32 = 0x0;
pub const BSET: u32 = 0x1;
pub const BCLR: u32 = 0x2;
pub const BTGL: u32 = 0x3;

} // verus!
