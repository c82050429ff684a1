//! The CHIP-8 virtual machine: its errors, font, instruction decoding,
//! mathematical model and the interpreter itself.

pub mod errors;
pub mod font;
pub mod instruction;
pub mod keypad;
pub mod laws;
pub mod machine;
mod rng;
pub mod interpreter;
