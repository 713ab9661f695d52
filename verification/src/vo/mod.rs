//! The VIV-32 relocatable object format (`.vo`): a text header with BSS,
//! symbol and relocation tables, followed by the raw section bytes.
pub mod bss;
pub mod error;
pub mod laws;
pub mod object_file;
pub mod relocation;
pub mod symbol;

pub use bss::{Bss, BssParseError};
pub use error::VoError;
pub use object_file::ObjectFile;


pub use relocation::{Relocation, RelocationBase, RelocationSign};
pub use symbol::{Symbol, SymbolParseError};
