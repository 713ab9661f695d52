pub mod creg;

pub use creg::Creg;
pub mod spec;
pub mod instruction;

pub use instruction::Instruction;
pub mod fields;
pub mod decode;

pub use decode::{decode, spec_decode, DecodeError};
pub mod encode;

pub use encode::{encode, EncodeError};
pub mod display;
pub mod listing;
