//! The VIV-32 reference emulator: processor, system bus and platform devices.
pub mod bus;
pub mod cpu;
pub mod lifecycle;
pub mod machine;
pub mod platform;

pub use cpu::ProgramCounter;
pub use lifecycle::Lifecycle;
