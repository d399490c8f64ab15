use crate::arith::{quotient, sign, wrap};
use crate::error::VMError;
use crate::instruction::{Instruction, Operand, REGISTER_COUNT};
use vstd::prelude::*;

verus! {

/// The state of a machine as a mathematical value. Everything the machine
/// does is defined here, as functions from states to states.
pub struct Machine {
    /// The register file.
    pub registers: Seq<i64>,
    /// Index of the next instruction to fetch.
    pub pc: nat,
    /// Outcome of the last comparison; only its sign is read.
    pub flag: int,
    /// The instruction store.
    pub program: Seq<Instruction>,
}

impl Machine {
    /// The register file is complete and the program counter points into the
    /// instruction store or just past its end.
    pub open spec fn wf(self) -> bool {
        &&& self.registers.len() == REGISTER_COUNT
        &&& self.pc <= self.program.len()
    }

    /// A fresh machine: registers, flag and program counter zero, no program.
    pub open spec fn initial() -> Machine {
        Machine {
            registers: Seq::new(REGISTER_COUNT as nat, |i: int| 0i64),
            pc: 0,
            flag: 0,
            program: Seq::empty(),
        }
    }

    /// The machine after loading `program`: the store is replaced and the
    /// program counter reset; registers and flag stay as they are.
    pub open spec fn load(self, program: Seq<Instruction>) -> Machine {
        Machine { pc: 0, program, ..self }
    }

    /// Content of register `r`.
    pub open spec fn get(self, r: usize) -> i64
        recommends
            r < self.registers.len(),
    {
        self.registers[r as int]
    }

    /// The machine with `v` written to register `r`.
    pub open spec fn set(self, r: usize, v: i64) -> Machine
        recommends
            r < self.registers.len(),
    {
        Machine { registers: self.registers.update(r as int, v), ..self }
    }

    /// The machine with the program counter moved to `addr`.
    pub open spec fn jump(self, addr: usize) -> Machine {
        Machine { pc: addr as nat, ..self }
    }

    /// The value that an operand denotes, when it is valid.
    pub open spec fn value(self, operand: Operand) -> i64
        recommends
            operand.valid(),
    {
        match operand {
            Operand::Register(r) => self.get(r),
            Operand::Immediate(v) => v,
        }
    }

    /// Operand resolution: the value, or `InvalidRegister`.
    pub open spec fn resolve(self, operand: Operand) -> Result<i64, VMError> {
        if operand.valid() {
            Ok(self.value(operand))
        } else {
            Err(VMError::InvalidRegister)
        }
    }

    /// Why `instruction` fails in this state, if it does. The register field
    /// and the operand are checked first; then the divisor; a branch target
    /// is checked only when the branch is taken.
    pub open spec fn fault(self, instruction: Instruction) -> Option<VMError> {
        if instruction.register() matches Some(r) && r >= REGISTER_COUNT {
            Some(VMError::InvalidRegister)
        } else if instruction.source() matches Some(s) && !s.valid() {
            Some(VMError::InvalidRegister)
        } else if instruction matches Instruction::Div(_, s) && self.value(s) == 0 {
            Some(VMError::DivisionByZero)
        } else if instruction.target() matches Some(a) && instruction.taken(self.flag)
            && a >= self.program.len() {
            Some(VMError::InvalidProgramCounter)
        } else {
            None
        }
    }

    /// What `instruction` does to the state when it does not fail.
    /// Arithmetic wraps modulo 2^64; division rounds toward zero.
    pub open spec fn effect(self, instruction: Instruction) -> Machine {
        match instruction {
            Instruction::Mov(d, s) => self.set(d, self.value(s)),
            Instruction::Add(d, s) => self.set(d, wrap(self.get(d) + self.value(s))),
            Instruction::Sub(d, s) => self.set(d, wrap(self.get(d) - self.value(s))),
            Instruction::Mul(d, s) => self.set(d, wrap(self.get(d) * self.value(s))),
            Instruction::Div(d, s) => self.set(d, wrap(quotient(self.get(d) as int, self.value(s) as int))),
            Instruction::Cmp(r, s) => Machine { flag: sign(self.get(r) - self.value(s)), ..self },
            Instruction::Jmp(a) | Instruction::Je(a) | Instruction::Jne(a) | Instruction::Jg(a)
            | Instruction::Jl(a) => if instruction.taken(self.flag) {
                self.jump(a)
            } else {
                self
            },
            Instruction::Halt => self,
        }
    }

    /// Execution of one instruction that has been fetched already, so that
    /// `self.pc` is the index after it. The second component is the error,
    /// or whether the machine goes on: only `Halt` stops it. A failing
    /// instruction changes nothing.
    pub open spec fn execute(self, instruction: Instruction) -> (Machine, Result<bool, VMError>) {
        match self.fault(instruction) {
            Some(e) => (self, Err(e)),
            None => (self.effect(instruction), Ok(!(instruction is Halt))),
        }
    }

    /// Fetch: the instruction under the program counter, which moves on by
    /// one; nothing at or past the end of the store.
    pub open spec fn fetch(self) -> (Machine, Option<Instruction>) {
        if self.pc < self.program.len() {
            (Machine { pc: self.pc + 1, ..self }, Some(self.program[self.pc as int]))
        } else {
            (self, None)
        }
    }

    /// One cycle: fetch, then execute. At the end of the store the machine
    /// stops without a change.
    pub open spec fn step(self) -> (Machine, Result<bool, VMError>) {
        match self.fetch() {
            (next, Some(instruction)) => next.execute(instruction),
            (next, None) => (next, Ok(false)),
        }
    }

    /// At most `n` cycles. The second component is `None` while the machine
    /// has not stopped; once it has, it is the content of register 0, or the
    /// error.
    pub open spec fn run_for(self, n: nat) -> (Machine, Option<Result<i64, VMError>>)
        decreases n,
    {
        if n == 0 {
            (self, None)
        } else {
            match self.step() {
                (next, Ok(true)) => next.run_for((n - 1) as nat),
                (next, Ok(false)) => (next, Some(Ok(next.registers[0]))),
                (next, Err(e)) => (next, Some(Err(e))),
            }
        }
    }

    /// The machine stops after finitely many cycles.
    pub open spec fn halts(self) -> bool {
        exists|n: nat| (#[trigger] self.run_for(n)).1 is Some
    }

    /// Once the machine has stopped, more cycles change nothing.
    pub proof fn lemma_run_for_stable(self, n: nat, m: nat)
        requires
            self.run_for(n).1 is Some,
            n <= m,
        ensures
            self.run_for(m) == self.run_for(n),
        decreases n,
    {
        if n > 0 {
            let (next, r) = self.step();
            if r == Ok::<bool, VMError>(true) {
                next.lemma_run_for_stable((n - 1) as nat, (m - 1) as nat);
            }
        }
    }

    /// The machine stops in one way only: any two numbers of cycles after
    /// which it has stopped give the same state and the same result.
    pub proof fn lemma_run_for_unique(self, n: nat, m: nat)
        requires
            self.run_for(n).1 is Some,
            self.run_for(m).1 is Some,
        ensures
            self.run_for(m) == self.run_for(n),
    {
        if n <= m {
            self.lemma_run_for_stable(n, m);
        } else {
            self.lemma_run_for_stable(m, n);
        }
    }
}

} // verus!
