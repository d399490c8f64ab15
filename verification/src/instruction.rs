use vstd::prelude::*;

verus! {

/// Number of registers of the machine.
pub const REGISTER_COUNT: usize = 10;

/// The source of a value: a register, by index, or a literal.
#[derive(Debug, Clone, Copy, PartialEq, Eq, Structural)]
pub enum Operand {
    Register(usize),
    Immediate(i64),
}

/// One instruction. Register fields are indices into the register file,
/// branch targets are absolute indices into the instruction store.
#[derive(Debug, Clone, Copy, PartialEq, Eq, Structural)]
pub enum Instruction {
    Mov(usize, Operand),
    Add(usize, Operand),
    Sub(usize, Operand),
    Mul(usize, Operand),
    Div(usize, Operand),
    Cmp(usize, Operand),
    Jmp(usize),
    Je(usize),
    Jne(usize),
    Jg(usize),
    Jl(usize),
    Halt,
}

impl Operand {
    /// Whether the operand can be read: a literal always, a register when
    /// its index exists.
    pub open spec fn valid(self) -> bool {
        match self {
            Operand::Register(r) => r < REGISTER_COUNT,
            Operand::Immediate(_) => true,
        }
    }
}

impl Instruction {
    /// The register that the instruction reads and writes (or, for a
    /// comparison, only reads), if it has one.
    pub open spec fn register(self) -> Option<usize> {
        match self {
            Instruction::Mov(r, _) => Some(r),
            Instruction::Add(r, _) => Some(r),
            Instruction::Sub(r, _) => Some(r),
            Instruction::Mul(r, _) => Some(r),
            Instruction::Div(r, _) => Some(r),
            Instruction::Cmp(r, _) => Some(r),
            _ => None,
        }
    }

    /// The source operand, if the instruction has one.
    pub open spec fn source(self) -> Option<Operand> {
        match self {
            Instruction::Mov(_, s) => Some(s),
            Instruction::Add(_, s) => Some(s),
            Instruction::Sub(_, s) => Some(s),
            Instruction::Mul(_, s) => Some(s),
            Instruction::Div(_, s) => Some(s),
            Instruction::Cmp(_, s) => Some(s),
            _ => None,
        }
    }

    /// The branch target, if the instruction is a branch.
    pub open spec fn target(self) -> Option<usize> {
        match self {
            Instruction::Jmp(a) => Some(a),
            Instruction::Je(a) => Some(a),
            Instruction::Jne(a) => Some(a),
            Instruction::Jg(a) => Some(a),
            Instruction::Jl(a) => Some(a),
            _ => None,
        }
    }

    /// Whether a branch is taken under the given comparison flag. Only the
    /// sign of the flag matters. False for every instruction that is no branch.
    pub open spec fn taken(self, flag: int) -> bool {
        match self {
            Instruction::Jmp(_) => true,
            Instruction::Je(_) => flag == 0,
            Instruction::Jne(_) => flag != 0,
            Instruction::Jg(_) => flag > 0,
            Instruction::Jl(_) => flag < 0,
            _ => false,
        }
    }
}

} // verus!
