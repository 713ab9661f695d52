//! VIV-32 processor model.
//!
//! The architectural CPU state and instruction execution of the reference
//! emulator. The CPU owns the system bus, fetches instructions from memory,
//! translates architectural exceptions into vector transfers, and advances the
//! attached platform devices through the bus tick.
pub mod pc;

pub use pc::ProgramCounter;
pub mod status;

pub use status::StatusRegister;
pub mod exception_cause;
pub mod gpr;

pub use exception_cause::ExceptionCause;
pub use gpr::GprFile;
pub mod creg_file;

pub use creg_file::{Creg, CregFile};
pub mod decode;

pub use decode::{decode, DecodeError, DecodedInstruction};
pub mod semantics;
#[allow(clippy::module_inception)]
pub mod cpu;

pub use cpu::{Cpu, CpuState};
