//! A CHIP-8 interpreter whose instruction semantics are stated as contracts
//! over a mathematical model of the machine and proved against it.

pub mod chip;
