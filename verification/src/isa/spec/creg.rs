//! Control register numbers.
use vstd::prelude::*;

verus! {

/// Program counter
pub const PC: usize = 0x0;
/// Status register
pub const SR: usize = 0x1;
/// Exception program counter
pub const EPC: usize = 0x2;
/// Saved status register
pub const ESR: usize = 0x3;
/// Exception cause
pub const ECAUSE: usize = 0x4;
/// Exception data
pub const EDATA: usize = 0x5;
/// Exception vector base address
pub const EVBASE: usize = 0x6;

} // verus!
