use vstd::prelude::*;

verus! {

pub const LUI: u32 = 0x0;
pub const LLI: u32 = 0x1;
pub const LHI: u32 = 0x2;

} // verus!
