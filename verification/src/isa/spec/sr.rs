//! Status register bit assignments.
use vstd::prelude::*;

verus! {

/// Negative flag
pub const N_BIT: u32 = 0x0;
pub const N_MASK: u32 = 0x1;
/// Zero flag
pub const Z_BIT: u32 = 0x1;
pub const Z_MASK: u32 = 0x2;
/// Carry flag
pub const C_BIT: u32 = 0x2;
pub const C_MASK: u32 = 0x4;
/// Signed overflow flag
pub const V_BIT: u32 = 0x3;
pub const V_MASK: u32 = 0x8;
/// Arithmetic error flag
pub const E_BIT: u32 = 0x4;
pub const E_MASK: u32 = 0x10;
/// Interrupt enable bit
pub const IE_BIT: u32 = 0x5;
pub const IE_MASK: u32 = 0x20;

} // verus!
