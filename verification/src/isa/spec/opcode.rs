//! Major opcodes.
use vstd::prelude::*;

verus! {

/// System/control
pub const SYSTEM_CONTROL: u32 = 0x0;
/// Register ALU
pub const REGISTER_ALU: u32 = 0x1;
/// Immediate arithmetic/compare
pub const IMMEDIATE_ARITHMETIC_COMPARE: u32 = 0x2;
/// Immediate logical
pub const IMMEDIATE_LOGICAL: u32 = 0x3;
/// Register shifts
pub const REGISTER_SHIFT: u32 = 0x4;
/// Immediate shifts
pub const IMMEDIATE_SHIFT: u32 = 0x5;
/// Bit immediate
pub const BIT_IMMEDIATE: u32 = 0x6;
/// Multiply/divide
pub const MULTIPLY_DIVIDE: u32 = 0x7;
/// Constant construction
pub const CONSTANT_CONSTRUCTION: u32 = 0x8;
/// Load
pub const LOAD: u32 = 0x9;
/// Store
pub const STORE: u32 = 0xA;
/// Flag branch
pub const FLAG_BRANCH: u32 = 0xB;
/// Register branch
pub const REGISTER_BRANCH: u32 = 0xC;
/// PC-relative jump
pub const PC_RELATIVE_JUMP: u32 = 0xD;
/// PC-relative call
pub const PC_RELATIVE_CALL: u32 = 0xE;
/// Register jump/call
pub const REGISTER_JUMP_CALL: u32 = 0xF;

} // verus!
