use vstd::prelude::*;

verus! {

pub const ADD: u32 = 0x0;
pub const SUB: u32 = 0x1;
pub const AND: u32 = 0x2;
pub const OR: u32 = 0x3;
pub const XOR: u32 = 0x4;
pub const NOT: u32 = 0x5;
pub const NEG: u32 = 0x6;
pub const CMP: u32 = 0x7;

} // verus!
