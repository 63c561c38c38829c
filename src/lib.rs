//! A small stack machine with one accumulator register: a decoder from
//! bytes to programs, and an engine that runs a program on a state made of
//! a program counter, the register, a bounded operand stack and a sparse
//! word-addressed memory.

pub mod cmd;
pub mod code;
pub mod instruction;
pub mod laws;
pub mod machine;
pub mod memory;
pub mod ops;
pub mod stack;
pub mod state;
pub mod types;
