//! Branch condition codes.
use vstd::prelude::*;

verus! {

/// equal
pub const EQ: u32 = 0x0;
/// not equal
pub const NE: u32 = 0x1;
/// signed less than
pub const LT: u32 = 0x2;
/// signed less than or equal
pub const LE: u32 = 0x3;
/// signed greater than
pub const GT: u32 = 0x4;
/// signed greater than or equal
pub const GE: u32 = 0x5;
/// unsigned less than
pub const LTU: u32 = 0x6;
/// unsigned less than or equal
pub const LEU: u32 = 0x7;
/// unsigned greater than
pub const GTU: u32 = 0x8;
/// unsigned greater than or equal
pub const GEU: u32 = 0x9;
/// carry set
pub const CS: u32 = 0xA;
/// carry clear
pub const CC: u32 = 0xB;
/// overflow set
pub const VS: u32 = 0xC;
/// overflow clear
pub const VC: u32 = 0xD;
/// arithmetic error set
pub const ES: u32 = 0xE;
/// arithmetic error clear
pub const EC: u32 = 0xF;

} // verus!
