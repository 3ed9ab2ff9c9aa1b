//! The CPU: instruction semantics, the instruction handlers and the decoder.

pub mod cpu;
pub mod model;
pub mod semantics;
pub mod alu;
pub mod opcode;
pub mod cb;
pub mod cycles;
pub mod decode;
pub mod laws;
