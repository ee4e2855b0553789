//! A minimal register-based virtual machine.
//!
//! The crate has two parts: [`instruction`] defines the byte-level opcode
//! encoding, a total mapping from every byte to a symbolic opcode, and [`vm`]
//! holds the execution engine that drives the fetch-decode-execute cycle over
//! a loaded program buffer. [`isa`] is an unrelated sketch of a larger 16-bit
//! machine's register and opcode tables.

pub mod instruction;
pub mod isa;
pub mod vm;
