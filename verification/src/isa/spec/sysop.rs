//! System operation codes of the X-type format.
use vstd::prelude::*;

verus! {

pub const NOP: u32 = 0x0;
pub const HALT: u32 = 0x1;
pub const TRAP: u32 = 0x2;
pub const SYSCALL: u32 = 0x3;
pub const IRET: u32 = 0x4;
pub const EI: u32 = 0x5;
pub const DI: u32 = 0x6;
pub const RDPC: u32 = 0x7;
pub const MRS: u32 = 0x8;
pub const MSR: u32 = 0x9;

} // verus!
