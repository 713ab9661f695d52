use vstd::prelude::*;

verus! {

pub const SHL: u32 = 0x0;
pub const SHR: u32 = 0x1;
pub const SAR: u32 = 0x2;

} // verus!
