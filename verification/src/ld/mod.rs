//! The VIV-32 linker: concatenates objects, places BSS after the sections and
//! patches relocated fields.
pub mod error;
pub mod laws;
pub mod linker;

pub use error::LinkerError;
pub use linker::Linker;
