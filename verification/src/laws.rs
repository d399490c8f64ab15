//! What holds of every machine, stated over the model and proved from it.

use crate::arith::wrap;
use crate::error::VMError;
use crate::instruction::{Instruction, Operand, REGISTER_COUNT};
use crate::model::Machine;
use vstd::prelude::*;

verus! {

/// Executing an instruction keeps a machine well formed, whether the
/// instruction succeeds or fails, and never touches the instruction store.
pub proof fn lemma_execute_preserves_wf(m: Machine, instruction: Instruction)
    requires
        m.wf(),
    ensures
        m.execute(instruction).0.wf(),
        m.execute(instruction).0.program == m.program,
{
}

/// A cycle keeps a machine well formed: the register file keeps its ten
/// registers, and the program counter stays within the store or one past
/// its end. The instruction store is not changed.
pub proof fn lemma_step_preserves_wf(m: Machine)
    requires
        m.wf(),
    ensures
        m.step().0.wf(),
        m.step().0.registers.len() == REGISTER_COUNT,
        m.step().0.pc <= m.program.len(),
        m.step().0.program == m.program,
{
}

/// Any number of cycles keeps a machine well formed and its store unchanged.
pub proof fn lemma_run_for_preserves_wf(m: Machine, n: nat)
    requires
        m.wf(),
    ensures
        m.run_for(n).0.wf(),
        m.run_for(n).0.program == m.program,
    decreases n,
{
    if n > 0 {
        lemma_step_preserves_wf(m);
        if m.step().1 == Ok::<bool, VMError>(true) {
            lemma_run_for_preserves_wf(m.step().0, (n - 1) as nat);
        }
    }
}

/// A machine at the end of its store has stopped: one cycle reports it,
/// changes nothing and yields register 0.
pub proof fn lemma_end_of_program(m: Machine)
    requires
        m.pc >= m.program.len(),
    ensures
        m.step() == (m, Ok::<bool, VMError>(false)),
        m.run_for(1) == (m, Some(Ok::<i64, VMError>(m.registers[0]))),
        m.halts(),
{
    reveal_with_fuel(Machine::run_for, 2);
    assert(m.run_for(1).1 is Some);
}

/// A fresh machine, whatever is loaded into it afterwards, has zero in every
/// register; with nothing loaded it stops at once with result 0.
pub proof fn lemma_initial()
    ensures
        Machine::initial().wf(),
        forall|r: usize| r < REGISTER_COUNT ==> #[trigger] Machine::initial().get(r) == 0,
        Machine::initial().run_for(1) == (Machine::initial(), Some(Ok::<i64, VMError>(0))),
{
    lemma_end_of_program(Machine::initial());
}

/// Loading replaces the store and resets the program counter only, so
/// loading the same program a second time changes nothing, and the loaded
/// machine is well formed if the register file is.
pub proof fn lemma_load_idempotent(m: Machine, program: Seq<Instruction>)
    ensures
        m.load(program).load(program) == m.load(program),
        m.load(program).program == program,
        m.load(program).pc == 0,
        m.load(program).registers == m.registers,
        m.load(program).flag == m.flag,
        m.registers.len() == REGISTER_COUNT ==> m.load(program).wf(),
{
}

/// After a comparison the sign of the flag is the sign of the exact
/// difference between the register and the operand, and exactly one of
/// "less", "equal", "greater" holds. Nothing else changes.
pub proof fn lemma_compare(m: Machine, reg: usize, src: Operand)
    requires
        reg < REGISTER_COUNT,
        src.valid(),
    ensures
        ({
            let (next, r) = m.execute(Instruction::Cmp(reg, src));
            let flag = next.flag;
            &&& r == Ok::<bool, VMError>(true)
            &&& flag < 0 <==> m.get(reg) < m.value(src)
            &&& flag == 0 <==> m.get(reg) == m.value(src)
            &&& flag > 0 <==> m.get(reg) > m.value(src)
            &&& (flag < 0 && !(flag == 0) && !(flag > 0)) || (!(flag < 0) && flag == 0 && !(flag
                > 0)) || (!(flag < 0) && !(flag == 0) && flag > 0)
            &&& next.registers == m.registers
            &&& next.pc == m.pc
            &&& next.program == m.program
        }),
{
}

/// Only a comparison writes the flag.
pub proof fn lemma_flag_kept(m: Machine, instruction: Instruction)
    requires
        !(instruction is Cmp),
    ensures
        m.execute(instruction).0.flag == m.flag,
{
}

/// Only `Mov` and the arithmetic instructions write registers, and each
/// writes its destination only.
pub proof fn lemma_registers_kept(m: Machine, instruction: Instruction, r: usize)
    requires
        m.wf(),
        r < REGISTER_COUNT,
        instruction is Cmp || instruction is Halt || instruction.target() is Some
            || instruction.register() != Some(r),
    ensures
        m.execute(instruction).0.get(r) == m.get(r),
{
}

/// How a successful cycle moves the program counter: a branch that is taken
/// sets it to the target; every other instruction, an untaken branch and
/// `Halt` included, advances it by exactly one.
pub proof fn lemma_pc_after_step(m: Machine)
    requires
        m.pc < m.program.len(),
        m.step().1 is Ok,
    ensures
        ({
            let instruction = m.program[m.pc as int];
            let next = m.step().0;
            if instruction.taken(m.flag) {
                instruction.target() matches Some(a) && next.pc == a && a < m.program.len()
            } else {
                next.pc == m.pc + 1
            }
        }),
{
}

/// A failing instruction leaves the machine as it was after the fetch: the
/// program counter is past the instruction, registers and flag are untouched.
pub proof fn lemma_failed_step(m: Machine)
    requires
        m.pc < m.program.len(),
        m.step().1 is Err,
    ensures
        m.step().0 == m.fetch().0,
        m.step().0.pc == m.pc + 1,
        m.step().0.registers == m.registers,
        m.step().0.flag == m.flag,
{
}

/// Adding or subtracting zero and multiplying by one leave the machine
/// unchanged; multiplying by zero clears the register.
pub proof fn lemma_arithmetic_identities(m: Machine, r: usize)
    requires
        m.wf(),
        r < REGISTER_COUNT,
    ensures
        m.execute(Instruction::Add(r, Operand::Immediate(0))) == (m, Ok::<bool, VMError>(true)),
        m.execute(Instruction::Sub(r, Operand::Immediate(0))) == (m, Ok::<bool, VMError>(true)),
        m.execute(Instruction::Mul(r, Operand::Immediate(1))) == (m, Ok::<bool, VMError>(true)),
        m.execute(Instruction::Mul(r, Operand::Immediate(0))) == (
            m.set(r, 0),
            Ok::<bool, VMError>(true),
        ),
{
    let v = m.get(r);
    assert(wrap(v + 0) == v);
    assert(wrap(v - 0) == v);
    assert(wrap(v * 1) == v);
    assert(wrap(v * 0) == 0);
    assert(m.registers.update(r as int, v) =~= m.registers);
}

/// An instruction that names a register that does not exist, as its
/// register field or as its operand, fails with `InvalidRegister`.
pub proof fn lemma_invalid_register(m: Machine, instruction: Instruction)
    requires
        (instruction.register() matches Some(r) && r >= REGISTER_COUNT) || (instruction.source()
            matches Some(Operand::Register(r)) && r >= REGISTER_COUNT),
    ensures
        m.execute(instruction) == (m, Err::<bool, VMError>(VMError::InvalidRegister)),
{
}

/// A division whose registers exist fails with `DivisionByZero` exactly
/// when its operand, literal or register, resolves to zero.
pub proof fn lemma_division_by_zero(m: Machine, dest: usize, src: Operand)
    requires
        dest < REGISTER_COUNT,
        src.valid(),
    ensures
        m.value(src) == 0 ==> m.execute(Instruction::Div(dest, src)) == (
            m,
            Err::<bool, VMError>(VMError::DivisionByZero),
        ),
        m.value(src) != 0 ==> m.execute(Instruction::Div(dest, src)).1 == Ok::<bool, VMError>(
            true,
        ),
{
}

/// A jump fails with `InvalidProgramCounter` exactly when its target is at
/// or past the end of the store; otherwise the next fetch reads the target.
pub proof fn lemma_jump(m: Machine, addr: usize)
    ensures
        addr >= m.program.len() ==> m.execute(Instruction::Jmp(addr)) == (
            m,
            Err::<bool, VMError>(VMError::InvalidProgramCounter),
        ),
        addr < m.program.len() ==> {
            let (next, r) = m.execute(Instruction::Jmp(addr));
            &&& r == Ok::<bool, VMError>(true)
            &&& next == m.jump(addr)
            &&& next.fetch().1 == Some(m.program[addr as int])
        },
{
}

/// A conditional branch that is not taken does nothing and cannot fail,
/// wherever its target points.
pub proof fn lemma_branch_not_taken(m: Machine, instruction: Instruction)
    requires
        instruction.target() is Some,
        !instruction.taken(m.flag),
    ensures
        m.execute(instruction) == (m, Ok::<bool, VMError>(true)),
{
}

/// `Halt` stops the machine: the cycle that meets it reports the stop and
/// yields register 0; only the program counter has moved, past the `Halt`.
pub proof fn lemma_halt_stops(m: Machine)
    requires
        m.pc < m.program.len(),
        m.program[m.pc as int] is Halt,
    ensures
        m.step() == (m.fetch().0, Ok::<bool, VMError>(false)),
        m.run_for(1) == (m.fetch().0, Some(Ok::<i64, VMError>(m.registers[0]))),
        m.halts(),
{
    reveal_with_fuel(Machine::run_for, 2);
    assert(m.run_for(1).1 is Some);
}

/// A program whose branches all point forward stops: from a program counter
/// `pc` it takes at most `len - pc + 1` cycles. Programs without branches
/// are the simplest case.
pub proof fn lemma_forward_branches_halt(m: Machine)
    requires
        m.wf(),
        forall|i: int|
            m.pc <= i < m.program.len() ==> ((#[trigger] m.program[i]).target() matches Some(a)
                ==> a > i),
    ensures
        m.run_for((m.program.len() - m.pc + 1) as nat).1 is Some,
        m.halts(),
    decreases m.program.len() - m.pc,
{
    let n = (m.program.len() - m.pc + 1) as nat;
    let (next, r) = m.step();
    if m.pc < m.program.len() && r == Ok::<bool, VMError>(true) {
        lemma_step_preserves_wf(m);
        lemma_pc_after_step(m);
        assert(next.pc > m.pc);
        lemma_forward_branches_halt(next);
        next.lemma_run_for_stable((next.program.len() - next.pc + 1) as nat, (n - 1) as nat);
        assert(m.run_for(n) == next.run_for((n - 1) as nat));
    } else {
        reveal_with_fuel(Machine::run_for, 2);
        assert(m.run_for(1).1 is Some);
        m.lemma_run_for_stable(1, n);
    }
}

} // verus!
