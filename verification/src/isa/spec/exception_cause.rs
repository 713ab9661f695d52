//! Exception cause codes.
use vstd::prelude::*;

verus! {

/// Reset entry
pub const RESET: u32 = 0x0;
/// Undefined or reserved instruction encoding
pub const ILLEGAL_INSTRUCTION: u32 = 0x1;
/// Instruction fetch from a non-4-byte-aligned address
pub const MISALIGNED_INSTRUCTION_FETCH: u32 = 0x2;
/// Misaligned halfword or word load/store
pub const MISALIGNED_DATA_ACCESS: u32 = 0x3;
/// trap instruction
pub const SOFTWARE_TRAP: u32 = 0x4;
/// syscall instruction
pub const SYSTEM_CALL: u32 = 0x5;
/// Platform timer interrupt
pub const TIMER_INTERRUPT: u32 = 0x6;
/// Platform external interrupt
pub const EXTERNAL_INTERRUPT: u32 = 0x7;
/// Bus error on fetch, load or store
pub const BUS_ERROR: u32 = 0x8;

} // verus!
