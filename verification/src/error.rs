use vstd::prelude::*;

verus! {

/// The three ways in which an instruction can fail.
#[derive(Debug, Clone, Copy, PartialEq, Eq, Structural)]
pub enum VMError {
    /// A register index, as destination or as operand, is not below
    /// [`REGISTER_COUNT`](crate::instruction::REGISTER_COUNT).
    InvalidRegister,
    /// The resolved source operand of a division is zero.
    DivisionByZero,
    /// A branch that is taken names a target outside the instruction store.
    InvalidProgramCounter,
}

} // verus!
