pub mod assembler;
pub mod isa;
pub mod ld;
pub mod emulator;
pub mod text;
pub mod vo;
pub mod word;
