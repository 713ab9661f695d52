//! Encoding tables of the VIV-32 instruction set.
pub mod architecture;
pub mod gpr;
pub mod creg;
pub mod sr;
pub mod format;
pub mod opcode;
pub mod func;
pub mod mode;
pub mod condition;
pub mod memory_size;
pub mod sysop;
pub mod exception_cause;

use vstd::prelude::*;

verus! {


} // verus!
