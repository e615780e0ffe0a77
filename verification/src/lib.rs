//! A verified virtual machine for a 16-bit, 15-bit-data instruction set:
//! 32768 words of memory, 8 registers, an unbounded word stack, and a
//! 22-opcode decode/execute loop.
//!
//! The machine's behaviour is specified by the functional model in [`model`]
//! and implemented by [`machine::Machine`]; [`laws`] proves general
//! properties of the semantics.

pub mod laws;
pub mod machine;
pub mod model;
