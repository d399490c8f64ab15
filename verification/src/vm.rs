use crate::arith::{compare, wrapping_difference, wrapping_product, wrapping_quotient, wrapping_sum};
use crate::error::VMError;
use crate::instruction::{Instruction, Operand, REGISTER_COUNT};
use crate::model::Machine;
use vstd::prelude::*;

verus! {

/// The executable machine. Its view is a [`Machine`]; every method states
/// what it does as a function of that view.
pub struct RegisterVM {
    registers: [i64; REGISTER_COUNT],
    pc: usize,
    flag: i8,
    memory: Vec<Instruction>,
}

impl View for RegisterVM {
    type V = Machine;

    closed spec fn view(&self) -> Machine {
        Machine {
            registers: self.registers@,
            pc: self.pc as nat,
            flag: self.flag as int,
            program: self.memory@,
        }
    }
}

impl RegisterVM {
    /// The program counter never leaves the store by more than one place.
    #[verifier::type_invariant]
    spec fn pc_in_range(&self) -> bool {
        self.pc <= self.memory.len()
    }

    /// A machine with zeroed registers, flag and program counter, and an
    /// empty instruction store.
    pub fn new() -> (vm: Self)
        ensures
            vm@ == Machine::initial(),
            vm@.wf(),
    {
        let vm = RegisterVM { registers: [0; REGISTER_COUNT], pc: 0, flag: 0, memory: Vec::new() };
        assert(vm@.registers =~= Machine::initial().registers);
        assert(vm@.program =~= Machine::initial().program);
        vm
    }

    /// Replaces the instruction store and resets the program counter.
    /// Registers and flag keep their values.
    pub fn load_program(&mut self, program: Vec<Instruction>)
        ensures
            final(self)@ == old(self)@.load(program@),
            final(self)@.wf(),
    {
        self.pc = 0;
        self.memory = program;
    }

    /// Resolves an operand to the value it denotes.
    pub fn get_operand_value(&self, operand: &Operand) -> (r: Result<i64, VMError>)
        ensures
            r == self@.resolve(*operand),
    {
        match operand {
            Operand::Register(reg) => {
                if *reg < REGISTER_COUNT {
                    Ok(self.registers[*reg])
                } else {
                    Err(VMError::InvalidRegister)
                }
            },
            Operand::Immediate(value) => Ok(*value),
        }
    }

    /// Reads the instruction under the program counter and moves the counter
    /// past it. Returns `None`, and changes nothing, at the end of the store.
    pub fn fetch(&mut self) -> (r: Option<Instruction>)
        ensures
            (final(self)@, r) == old(self)@.fetch(),
            final(self)@.wf(),
    {
        proof {
            use_type_invariant(&*self);
        }
        if self.pc < self.memory.len() {
            let instruction = self.memory[self.pc];
            self.pc += 1;
            Some(instruction)
        } else {
            None
        }
    }

    /// Executes one instruction that has been fetched already. Returns
    /// whether the machine goes on (`false` only for `Halt`), or the error; a
    /// failing instruction leaves the machine as it was.
    pub fn execute(&mut self, instruction: Instruction) -> (r: Result<bool, VMError>)
        ensures
            (final(self)@, r) == old(self)@.execute(instruction),
            final(self)@.wf(),
    {
        proof {
            use_type_invariant(&*self);
        }
        match instruction {
            Instruction::Mov(dest, src) => {
                if dest >= REGISTER_COUNT {
                    return Err(VMError::InvalidRegister);
                }
                self.registers[dest] = self.get_operand_value(&src)?;
            },
            Instruction::Add(dest, src) => {
                if dest >= REGISTER_COUNT {
                    return Err(VMError::InvalidRegister);
                }
                let value = self.get_operand_value(&src)?;
                self.registers[dest] = wrapping_sum(self.registers[dest], value);
            },
            Instruction::Sub(dest, src) => {
                if dest >= REGISTER_COUNT {
                    return Err(VMError::InvalidRegister);
                }
                let value = self.get_operand_value(&src)?;
                self.registers[dest] = wrapping_difference(self.registers[dest], value);
            },
            Instruction::Mul(dest, src) => {
                if dest >= REGISTER_COUNT {
                    return Err(VMError::InvalidRegister);
                }
                let value = self.get_operand_value(&src)?;
                self.registers[dest] = wrapping_product(self.registers[dest], value);
            },
            Instruction::Div(dest, src) => {
                if dest >= REGISTER_COUNT {
                    return Err(VMError::InvalidRegister);
                }
                let divisor = self.get_operand_value(&src)?;
                if divisor == 0 {
                    return Err(VMError::DivisionByZero);
                }
                self.registers[dest] = wrapping_quotient(self.registers[dest], divisor);
            },
            Instruction::Cmp(reg, src) => {
                if reg >= REGISTER_COUNT {
                    return Err(VMError::InvalidRegister);
                }
                let left = self.registers[reg];
                let right = self.get_operand_value(&src)?;
                self.flag = compare(left, right);
            },
            Instruction::Jmp(addr) => {
                if addr >= self.memory.len() {
                    return Err(VMError::InvalidProgramCounter);
                }
                self.pc = addr;
            },
            Instruction::Je(addr) => {
                if self.flag == 0 {
                    if addr >= self.memory.len() {
                        return Err(VMError::InvalidProgramCounter);
                    }
                    self.pc = addr;
                }
            },
            Instruction::Jne(addr) => {
                if self.flag != 0 {
                    if addr >= self.memory.len() {
                        return Err(VMError::InvalidProgramCounter);
                    }
                    self.pc = addr;
                }
            },
            Instruction::Jg(addr) => {
                if self.flag > 0 {
                    if addr >= self.memory.len() {
                        return Err(VMError::InvalidProgramCounter);
                    }
                    self.pc = addr;
                }
            },
            Instruction::Jl(addr) => {
                if self.flag < 0 {
                    if addr >= self.memory.len() {
                        return Err(VMError::InvalidProgramCounter);
                    }
                    self.pc = addr;
                }
            },
            Instruction::Halt => {
                return Ok(false);
            },
        }
        Ok(true)
    }

    /// One cycle: fetch and execute. Returns `Ok(true)` when the machine goes
    /// on, `Ok(false)` when it has stopped, at `Halt` or at the end of the
    /// store, and the error of a failing instruction.
    pub fn step(&mut self) -> (r: Result<bool, VMError>)
        ensures
            (final(self)@, r) == old(self)@.step(),
            final(self)@.wf(),
    {
        match self.fetch() {
            Some(instruction) => self.execute(instruction),
            None => Ok(false),
        }
    }

    /// Runs at most `limit` cycles. Returns `None` if the machine has not
    /// stopped by then; it can be run further from where it is.
    pub fn run_bounded(&mut self, limit: u64) -> (r: Option<Result<i64, VMError>>)
        ensures
            (final(self)@, r) == old(self)@.run_for(limit as nat),
            final(self)@.wf(),
    {
        proof {
            use_type_invariant(&*self);
        }
        let ghost start = self@;
        let mut left: u64 = limit;
        while left > 0
            invariant
                self@.wf(),
                start == old(self)@,
                self@.run_for(left as nat) == start.run_for(limit as nat),
            decreases left,
        {
            match self.step() {
                Ok(true) => {
                    left -= 1;
                },
                Ok(false) => {
                    return Some(Ok(self.registers[0]));
                },
                Err(e) => {
                    return Some(Err(e));
                },
            }
        }
        None
    }

    /// Runs the machine until it stops, and returns the content of register 0
    /// or the error of the instruction that failed.
    ///
    /// The machine must stop: a program that loops forever has no result.
    /// [`run_bounded`](Self::run_bounded) and [`step`](Self::step) take any
    /// machine.
    pub fn run(&mut self) -> (r: Result<i64, VMError>)
        requires
            old(self)@.halts(),
        ensures
            forall|n: nat|
                (#[trigger] old(self)@.run_for(n)).1 is Some ==> old(self)@.run_for(n) == (
                    final(self)@,
                    Some(r),
                ),
            final(self)@.wf(),
    {
        proof {
            use_type_invariant(&*self);
        }
        let ghost start = self@;
        let ghost total: nat = choose|n: nat| (#[trigger] start.run_for(n)).1 is Some;
        let ghost mut left: nat = total;
        let mut result: Result<i64, VMError> = Ok(0);
        loop
            invariant_except_break
                self@.run_for(left) == start.run_for(total),
                start.run_for(total).1 is Some,
            invariant
                self@.wf(),
            ensures
                (self@, Some(result)) == start.run_for(total),
            decreases left,
        {
            match self.step() {
                Ok(true) => {
                    proof {
                        left = (left - 1) as nat;
                    }
                },
                Ok(false) => {
                    result = Ok(self.registers[0]);
                    break;
                },
                Err(e) => {
                    result = Err(e);
                    break;
                },
            }
        }
        proof {
            assert forall|n: nat| (#[trigger] start.run_for(n)).1 is Some implies start.run_for(n)
                == (self@, Some(result)) by {
                start.lemma_run_for_unique(total, n);
            }
        }
        result
    }

    /// Index of the next instruction to fetch; at most the length of the
    /// instruction store.
    pub fn pc(&self) -> (pc: usize)
        ensures
            pc == self@.pc,
            pc <= self@.program.len(),
            self@.wf(),
    {
        proof {
            use_type_invariant(self);
        }
        self.pc
    }

    /// The comparison flag: negative, zero or positive as the last comparison
    /// found its register less than, equal to or greater than its operand.
    pub fn flag(&self) -> (flag: i8)
        ensures
            flag == self@.flag,
    {
        self.flag
    }

    /// A copy of the register file.
    pub fn registers(&self) -> (registers: [i64; REGISTER_COUNT])
        ensures
            registers@ == self@.registers,
    {
        self.registers
    }

    /// The instruction store.
    pub fn program(&self) -> (program: &Vec<Instruction>)
        ensures
            program@ == self@.program,
    {
        &self.memory
    }
}

} // verus!
