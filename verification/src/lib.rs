//! A CHIP-8 virtual machine and a two-pass assembler for it.

pub mod assembler;
pub mod chip8;
pub mod isa;
pub mod text;
