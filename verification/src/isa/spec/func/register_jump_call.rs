use vstd::prelude::*;

verus! {

pub const JR: u32 = 0x0;
pub const JALR: u32 = 0x1;

} // verus!
