//! A CHIP-8 virtual machine whose instruction semantics are stated as
//! mathematical functions on a machine model and proved of the interpreter.

pub mod fault;
pub mod opcode;
pub mod font;
mod entropy;
pub mod machine;
pub mod laws;
pub mod chip8;
