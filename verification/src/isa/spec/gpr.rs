//! General-purpose register numbers.
use vstd::prelude::*;

verus! {

pub const WIDTH_BITS: u32 = 0x20;
pub const COUNT: u32 = 0x10;
pub const ENCODING_BITS: u32 = 0x4;
pub const R0: usize = 0x0;
pub const R1: usize = 0x1;
pub const R2: usize = 0x2;
pub const R3: usize = 0x3;
pub const R4: usize = 0x4;
pub const R5: usize = 0x5;
pub const R6: usize = 0x6;
pub const R7: usize = 0x7;
pub const R8: usize = 0x8;
pub const R9: usize = 0x9;
pub const R10: usize = 0xA;
pub const R11: usize = 0xB;
pub const R12: usize = 0xC;
pub const R13: usize = 0xD;
pub const R14: usize = 0xE;
pub const R15: usize = 0xF;
/// Alias for r0
pub const ZERO: usize = 0x0;
/// Alias for r14
pub const SP: usize = 0xE;
/// Alias for r15
pub const LR: usize = 0xF;
/// Alias for r13
pub const FP: usize = 0xD;

} // verus!
