//! Instruction-set interpreter core of a 6502-class 8-bit CPU.
//!
//! `model` states what the machine does as spec functions over a plain state value;
//! `cpu` is the executable interpreter, each of whose operations is proved to follow
//! that model; `opcode` is the instruction table; `error` the failures `run` reports.
pub mod cpu;
pub mod error;
pub mod laws;
pub mod model;
pub mod opcode;
