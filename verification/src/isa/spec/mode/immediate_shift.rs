use vstd::prelude::*;

verus! {

pub const SHLI: u32 = 0x0;
pub const SHRI: u32 = 0x1;
pub const SARI: u32 = 0x2;

} // verus!
