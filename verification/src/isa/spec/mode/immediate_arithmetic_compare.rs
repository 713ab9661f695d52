use vstd::prelude::*;

verus! {

pub const ADDI: u32 = 0x0;
pub const SUBI: u32 = 0x1;
pub const CMPI: u32 = 0x2;

} // verus!
