use register_vm::{Instruction, Operand, RegisterVM, VMError};

fn run_program(program: Vec<Instruction>) -> (RegisterVM, Result<i64, VMError>) {
    let mut vm = RegisterVM::new();
    vm.load_program(program);
    let result = vm.run();
    (vm, result)
}

fn factorial_program(input: i64) -> Vec<Instruction> {
    vec![
        Instruction::Mov(0, Operand::Immediate(input)),
        Instruction::Mov(1, Operand::Immediate(1)),
        Instruction::Cmp(0, Operand::Immediate(0)),
        Instruction::Je(7),
        Instruction::Mul(1, Operand::Register(0)),
        Instruction::Sub(0, Operand::Immediate(1)),
        Instruction::Jmp(2),
        Instruction::Mov(0, Operand::Register(1)),
        Instruction::Halt,
    ]
}

#[test]
fn factorial_of_five_is_120() {
    let (vm, result) = run_program(factorial_program(5));
    assert_eq!(result, Ok(120));
    assert_eq!(vm.pc(), 9);
    assert_eq!(vm.registers()[0], 120);
    assert_eq!(vm.registers()[1], 120);
    assert_eq!(vm.flag(), 0);
}

#[test]
fn factorial_of_other_inputs() {
    assert_eq!(run_program(factorial_program(0)).1, Ok(1));
    assert_eq!(run_program(factorial_program(1)).1, Ok(1));
    assert_eq!(run_program(factorial_program(2)).1, Ok(2));
    assert_eq!(run_program(factorial_program(10)).1, Ok(3628800));
    assert_eq!(run_program(factorial_program(20)).1, Ok(2432902008176640000));
}

#[test]
fn factorial_wraps_past_sixty_four_bits() {
    // 21! = 51090942171709440000 = 2 * 2^64 + 14197454024290336768,
    // which is -4249290049419214848 as a signed 64-bit value.
    assert_eq!(run_program(factorial_program(21)).1, Ok(-4249290049419214848));
}

#[test]
fn new_machine_is_zeroed() {
    let vm = RegisterVM::new();
    assert_eq!(vm.pc(), 0);
    assert_eq!(vm.flag(), 0);
    assert_eq!(vm.registers(), [0i64; 10]);
    assert_eq!(vm.registers().len(), 10);
    assert!(vm.program().is_empty());
}

#[test]
fn empty_program_returns_zero() {
    let (vm, result) = run_program(vec![]);
    assert_eq!(result, Ok(0));
    assert_eq!(vm.pc(), 0);
}

#[test]
fn run_without_loading_returns_zero() {
    let mut vm = RegisterVM::new();
    assert_eq!(vm.run(), Ok(0));
}

#[test]
fn halt_only_returns_zero() {
    let (vm, result) = run_program(vec![Instruction::Halt]);
    assert_eq!(result, Ok(0));
    assert_eq!(vm.pc(), 1);
}

#[test]
fn immediate_move_and_halt() {
    let (_, result) = run_program(vec![Instruction::Mov(0, Operand::Immediate(42)), Instruction::Halt]);
    assert_eq!(result, Ok(42));
}

#[test]
fn running_off_the_end_is_a_normal_stop() {
    let (vm, result) = run_program(vec![
        Instruction::Mov(0, Operand::Immediate(3)),
        Instruction::Add(0, Operand::Immediate(4)),
    ]);
    assert_eq!(result, Ok(7));
    assert_eq!(vm.pc(), 2);
}

#[test]
fn halt_stops_before_later_instructions() {
    let (vm, result) = run_program(vec![
        Instruction::Mov(0, Operand::Immediate(1)),
        Instruction::Halt,
        Instruction::Mov(0, Operand::Immediate(2)),
    ]);
    assert_eq!(result, Ok(1));
    assert_eq!(vm.pc(), 2);
}

#[test]
fn division_by_zero_keeps_state_of_failure() {
    let (vm, result) = run_program(vec![
        Instruction::Mov(0, Operand::Immediate(10)),
        Instruction::Mov(1, Operand::Immediate(0)),
        Instruction::Div(0, Operand::Register(1)),
    ]);
    assert_eq!(result, Err(VMError::DivisionByZero));
    assert_eq!(vm.registers()[0], 10);
    assert_eq!(vm.registers()[1], 0);
    assert_eq!(vm.pc(), 3);
}

#[test]
fn division_by_immediate_zero() {
    let (vm, result) = run_program(vec![
        Instruction::Mov(0, Operand::Immediate(10)),
        Instruction::Div(0, Operand::Immediate(0)),
        Instruction::Mov(0, Operand::Immediate(99)),
    ]);
    assert_eq!(result, Err(VMError::DivisionByZero));
    assert_eq!(vm.registers()[0], 10);
    assert_eq!(vm.pc(), 2);
}

#[test]
fn bad_register() {
    let (vm, result) = run_program(vec![Instruction::Mov(10, Operand::Immediate(1))]);
    assert_eq!(result, Err(VMError::InvalidRegister));
    assert_eq!(vm.registers(), [0i64; 10]);
    assert_eq!(vm.pc(), 1);
}

#[test]
fn conditional_skip() {
    let (_, result) = run_program(vec![
        Instruction::Mov(0, Operand::Immediate(1)),
        Instruction::Cmp(0, Operand::Immediate(1)),
        Instruction::Jne(99),
        Instruction::Mov(0, Operand::Immediate(7)),
        Instruction::Halt,
    ]);
    assert_eq!(result, Ok(7));
}

#[test]
fn taken_branch_out_of_range_fails() {
    let (vm, result) = run_program(vec![
        Instruction::Mov(0, Operand::Immediate(1)),
        Instruction::Cmp(0, Operand::Immediate(1)),
        Instruction::Je(99),
        Instruction::Mov(0, Operand::Immediate(7)),
        Instruction::Halt,
    ]);
    assert_eq!(result, Err(VMError::InvalidProgramCounter));
    assert_eq!(vm.pc(), 3);
    assert_eq!(vm.registers()[0], 1);
}

#[test]
fn jump_to_store_length_fails() {
    let (vm, result) = run_program(vec![Instruction::Jmp(2), Instruction::Halt]);
    assert_eq!(result, Err(VMError::InvalidProgramCounter));
    assert_eq!(vm.pc(), 1);
    let (_, beyond) = run_program(vec![Instruction::Jmp(usize::MAX), Instruction::Halt]);
    assert_eq!(beyond, Err(VMError::InvalidProgramCounter));
}

#[test]
fn jump_to_last_instruction_runs_it() {
    let (vm, result) = run_program(vec![
        Instruction::Jmp(2),
        Instruction::Mov(0, Operand::Immediate(1)),
        Instruction::Mov(0, Operand::Immediate(5)),
    ]);
    assert_eq!(result, Ok(5));
    assert_eq!(vm.pc(), 3);
}

#[test]
fn load_program_resets_only_the_program_counter() {
    let (mut vm, first) = run_program(vec![
        Instruction::Mov(0, Operand::Immediate(3)),
        Instruction::Mov(4, Operand::Immediate(-8)),
        Instruction::Cmp(4, Operand::Immediate(0)),
    ]);
    assert_eq!(first, Ok(3));
    assert_eq!(vm.pc(), 3);
    assert_eq!(vm.flag(), -1);
    vm.load_program(vec![Instruction::Add(0, Operand::Register(4)), Instruction::Halt]);
    assert_eq!(vm.pc(), 0);
    assert_eq!(vm.flag(), -1);
    assert_eq!(vm.registers()[0], 3);
    assert_eq!(vm.registers()[4], -8);
    assert_eq!(vm.program().len(), 2);
    assert_eq!(vm.run(), Ok(-5));
}

#[test]
fn loading_twice_is_loading_once() {
    let program = vec![Instruction::Mov(0, Operand::Immediate(9)), Instruction::Halt];
    let mut once = RegisterVM::new();
    once.load_program(program.clone());
    let mut twice = RegisterVM::new();
    twice.load_program(program.clone());
    twice.load_program(program.clone());
    assert_eq!(once.pc(), twice.pc());
    assert_eq!(twice.pc(), 0);
    assert_eq!(once.program(), twice.program());
    assert_eq!(twice.program(), &program);
    assert_eq!(once.registers(), twice.registers());
    assert_eq!(once.flag(), twice.flag());
}

#[test]
fn run_bounded_gives_up_on_an_endless_loop() {
    let mut vm = RegisterVM::new();
    vm.load_program(vec![Instruction::Add(0, Operand::Immediate(1)), Instruction::Jmp(0)]);
    assert_eq!(vm.run_bounded(1000), None);
    assert_eq!(vm.registers()[0], 500);
    assert_eq!(vm.pc(), 0);
    assert_eq!(vm.run_bounded(1), None);
    assert_eq!(vm.registers()[0], 501);
    assert_eq!(vm.pc(), 1);
}

#[test]
fn run_bounded_counts_cycles() {
    let program = vec![Instruction::Mov(0, Operand::Immediate(42)), Instruction::Halt];
    let mut vm = RegisterVM::new();
    vm.load_program(program.clone());
    assert_eq!(vm.run_bounded(0), None);
    assert_eq!(vm.pc(), 0);
    assert_eq!(vm.run_bounded(1), None);
    assert_eq!(vm.pc(), 1);
    assert_eq!(vm.run_bounded(1), Some(Ok(42)));
    assert_eq!(vm.pc(), 2);
    let mut other = RegisterVM::new();
    other.load_program(program);
    assert_eq!(other.run_bounded(2), Some(Ok(42)));
    let mut empty = RegisterVM::new();
    assert_eq!(empty.run_bounded(0), None);
    assert_eq!(empty.run_bounded(1), Some(Ok(0)));
}

#[test]
fn run_bounded_reports_errors() {
    let mut vm = RegisterVM::new();
    vm.load_program(vec![
        Instruction::Mov(0, Operand::Immediate(10)),
        Instruction::Div(0, Operand::Register(1)),
    ]);
    assert_eq!(vm.run_bounded(u64::MAX), Some(Err(VMError::DivisionByZero)));
    assert_eq!(vm.pc(), 2);
}

#[test]
fn run_bounded_agrees_with_run() {
    let mut bounded = RegisterVM::new();
    bounded.load_program(factorial_program(5));
    assert_eq!(bounded.run_bounded(30), None);
    assert_eq!(bounded.pc(), 8);
    assert_eq!(bounded.run(), Ok(120));
    let mut exact = RegisterVM::new();
    exact.load_program(factorial_program(5));
    assert_eq!(exact.run_bounded(31), Some(Ok(120)));
    assert_eq!(exact.pc(), 9);
}

#[test]
fn step_reports_progress_and_stop() {
    let mut vm = RegisterVM::new();
    vm.load_program(vec![
        Instruction::Mov(2, Operand::Immediate(5)),
        Instruction::Halt,
        Instruction::Mov(2, Operand::Immediate(6)),
    ]);
    assert_eq!(vm.step(), Ok(true));
    assert_eq!(vm.pc(), 1);
    assert_eq!(vm.registers()[2], 5);
    assert_eq!(vm.step(), Ok(false));
    assert_eq!(vm.pc(), 2);
    assert_eq!(vm.step(), Ok(true));
    assert_eq!(vm.pc(), 3);
    assert_eq!(vm.registers()[2], 6);
    assert_eq!(vm.step(), Ok(false));
    assert_eq!(vm.pc(), 3);
    assert_eq!(vm.step(), Ok(false));
    assert_eq!(vm.pc(), 3);
}

#[test]
fn fetch_advances_until_the_end() {
    let mut vm = RegisterVM::new();
    vm.load_program(vec![Instruction::Jmp(0), Instruction::Halt]);
    assert_eq!(vm.fetch(), Some(Instruction::Jmp(0)));
    assert_eq!(vm.pc(), 1);
    assert_eq!(vm.fetch(), Some(Instruction::Halt));
    assert_eq!(vm.pc(), 2);
    assert_eq!(vm.fetch(), None);
    assert_eq!(vm.pc(), 2);
}

#[test]
fn program_counter_stays_in_range() {
    let mut vm = RegisterVM::new();
    vm.load_program(factorial_program(4));
    let len: usize = vm.program().len();
    let mut cycles: u32 = 0;
    loop {
        let going = vm.step();
        assert!(vm.pc() <= len);
        assert_eq!(vm.registers().len(), 10);
        cycles += 1;
        if going != Ok(true) {
            assert_eq!(going, Ok(false));
            break;
        }
    }
    assert_eq!(cycles, 26);
    assert_eq!(vm.registers()[0], 24);
}
