//! The VIV-32 assembler: source lines to a relocatable object.
pub mod error;
pub mod forms;
pub mod laws;
pub mod lexer;
pub mod names;
pub mod state;
pub mod tables;

pub use error::{AssemblerError, ParseError};
pub use state::State;
