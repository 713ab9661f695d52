use vstd::prelude::*;

verus! {

pub const MUL: u32 = 0x0;
pub const MULU: u32 = 0x1;
pub const DIV: u32 = 0x2;
pub const DIVU: u32 = 0x3;

} // verus!
