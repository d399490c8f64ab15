//! A small register machine: ten signed 64-bit registers, a comparison flag,
//! a program counter and a linear store of instructions.
//!
//! The behaviour of the machine is defined once, mathematically, on the ghost
//! type [`model::Machine`]; the executable [`vm::RegisterVM`] is proved to
//! follow that definition instruction by instruction.

pub mod arith;
pub mod error;
pub mod format;
pub mod instruction;
pub mod laws;
pub mod model;
pub mod vm;

pub use error::VMError;
pub use instruction::{Instruction, Operand};
pub use vm::RegisterVM;
