//! A CHIP-8 interpreter engine: instruction decoding, the register and
//! memory model, and the semantics of every classic instruction, each
//! proved against an abstract machine state.
pub mod decode;

pub mod model;

mod random;

pub mod chip8;

pub mod laws;

pub use crate::chip8::Chip8;
pub use crate::decode::{decode, Instruction};
pub use crate::model::{
    Chip8Error, FONT_START, MEMORY_SIZE, PROGRAM_START, STACK_DEPTH, VIDEO_HEIGHT, VIDEO_WIDTH,
};
