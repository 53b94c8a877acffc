use toy_cpu::cpu::CpuState;
use toy_cpu::errors::VmError;
use toy_cpu::instructions::CpuInstruction;
use toy_cpu::instructions::InstructionArgument;

fn fresh_cpu() -> CpuState {
    CpuState::new(100).expect("a positive frequency is accepted")
}

#[test]
fn add_literals_sets_result_and_keeps_general_registers() {
    let mut cpu = fresh_cpu();
    *cpu.get_register_mut(&"a".to_string()).unwrap() = 1;
    *cpu.get_register_mut(&"b".to_string()).unwrap() = 2;
    *cpu.get_register_mut(&"c".to_string()).unwrap() = 3;
    *cpu.get_register_mut(&"d".to_string()).unwrap() = 4;
    let outcome = cpu.handle_instruction(&CpuInstruction::Add(
        InstructionArgument::Literal(5),
        InstructionArgument::Literal(7),
    ));
    assert!(outcome.is_ok());
    assert_eq!(cpu.registers.res, 12);
    assert_eq!(cpu.registers.a, 1);
    assert_eq!(cpu.registers.b, 2);
    assert_eq!(cpu.registers.c, 3);
    assert_eq!(cpu.registers.d, 4);
}

#[test]
fn add_wraps_modulo_two_to_the_sixteen() {
    let mut cpu = fresh_cpu();
    let outcome = cpu.handle_instruction(&CpuInstruction::Add(
        InstructionArgument::Literal(65535),
        InstructionArgument::Literal(3),
    ));
    assert!(outcome.is_ok());
    assert_eq!(cpu.registers.res, 2);
}

#[test]
fn sub_wraps_modulo_two_to_the_sixteen() {
    let mut cpu = fresh_cpu();
    let outcome = cpu.handle_instruction(&CpuInstruction::Sub(
        InstructionArgument::Literal(3),
        InstructionArgument::Literal(10),
    ));
    assert!(outcome.is_ok());
    assert_eq!(cpu.registers.res, 65529);
}

#[test]
fn eq_sets_result_to_one_on_equal_values() {
    let mut cpu = fresh_cpu();
    let outcome = cpu.handle_instruction(&CpuInstruction::Eq(
        InstructionArgument::Literal(4),
        InstructionArgument::Literal(4),
    ));
    assert!(outcome.is_ok());
    assert_eq!(cpu.registers.res, 1);
}

#[test]
fn eq_sets_result_to_zero_on_unequal_values() {
    let mut cpu = fresh_cpu();
    let outcome = cpu.handle_instruction(&CpuInstruction::Eq(
        InstructionArgument::Literal(4),
        InstructionArgument::Literal(5),
    ));
    assert!(outcome.is_ok());
    assert_eq!(cpu.registers.res, 0);
}

#[test]
fn mov_writes_a_register() {
    let mut cpu = fresh_cpu();
    let outcome = cpu.handle_instruction(&CpuInstruction::Mov(
        InstructionArgument::Literal(42),
        InstructionArgument::RegisterRef("b".to_string()),
    ));
    assert!(outcome.is_ok());
    assert_eq!(cpu.registers.b, 42);
    assert_eq!(cpu.registers.res, 0);
}

#[test]
fn mov_to_a_literal_is_an_invalid_destination() {
    let mut cpu = fresh_cpu();
    let outcome = cpu.handle_instruction(&CpuInstruction::Mov(
        InstructionArgument::Literal(1),
        InstructionArgument::Literal(2),
    ));
    assert!(matches!(outcome, Err(VmError::InvalidMovDestination)));
}

#[test]
fn unknown_register_read_is_reported_with_its_name() {
    let mut cpu = fresh_cpu();
    let outcome = cpu.handle_instruction(&CpuInstruction::Add(
        InstructionArgument::RegisterRef("z".to_string()),
        InstructionArgument::Literal(1),
    ));
    assert!(matches!(outcome, Err(VmError::UnknownRegister(name)) if name == "z"));
}

#[test]
fn unknown_register_write_is_reported_with_its_name() {
    let mut cpu = fresh_cpu();
    let outcome = cpu.handle_instruction(&CpuInstruction::Mov(
        InstructionArgument::Literal(1),
        InstructionArgument::RegisterRef("q".to_string()),
    ));
    assert!(matches!(outcome, Err(VmError::UnknownRegister(name)) if name == "q"));
}

#[test]
fn return_with_no_active_frame_is_an_empty_call_stack_error() {
    let mut cpu = fresh_cpu();
    let outcome = cpu.handle_instruction(&CpuInstruction::Return);
    assert!(matches!(outcome, Err(VmError::EmptyCallStack)));
}

#[test]
fn slot_read_with_no_active_frame_is_an_empty_call_stack_error() {
    let mut cpu = fresh_cpu();
    let outcome = cpu.handle_instruction(&CpuInstruction::Add(
        InstructionArgument::StackSlot(0),
        InstructionArgument::Literal(1),
    ));
    assert!(matches!(outcome, Err(VmError::EmptyCallStack)));
}

#[test]
fn function_marker_has_no_runtime_effect() {
    let mut cpu = fresh_cpu();
    let outcome = cpu.handle_instruction(&CpuInstruction::FunctionMarker("main".to_string()));
    assert!(outcome.is_ok());
    assert_eq!(cpu.registers.res, 0);
    assert_eq!(cpu.instruction_pointer, 0);
}

#[test]
fn goto_moves_the_instruction_pointer() {
    let mut cpu = fresh_cpu();
    let outcome = cpu.handle_instruction(&CpuInstruction::Goto(9));
    assert!(outcome.is_ok());
    assert_eq!(cpu.instruction_pointer, 9);
}

#[test]
fn if_dispatches_the_then_branch_on_a_truthy_condition() {
    let mut cpu = fresh_cpu();
    let outcome = cpu.handle_instruction(&CpuInstruction::If(
        InstructionArgument::Literal(1),
        Box::new(CpuInstruction::Goto(5)),
        Box::new(CpuInstruction::Goto(7)),
    ));
    assert!(outcome.is_ok());
    assert_eq!(cpu.instruction_pointer, 5);
}

#[test]
fn if_dispatches_the_else_branch_on_a_zero_condition() {
    let mut cpu = fresh_cpu();
    let outcome = cpu.handle_instruction(&CpuInstruction::If(
        InstructionArgument::Literal(0),
        Box::new(CpuInstruction::Goto(5)),
        Box::new(CpuInstruction::Goto(7)),
    ));
    assert!(outcome.is_ok());
    assert_eq!(cpu.instruction_pointer, 7);
}

#[test]
fn deeply_nested_if_branches_dispatch_the_innermost_instruction() {
    let mut cpu = fresh_cpu();
    let inner = CpuInstruction::Add(
        InstructionArgument::Literal(2),
        InstructionArgument::Literal(3),
    );
    let nested = CpuInstruction::If(
        InstructionArgument::Literal(1),
        Box::new(CpuInstruction::If(
            InstructionArgument::Literal(0),
            Box::new(CpuInstruction::Goto(1)),
            Box::new(inner),
        )),
        Box::new(CpuInstruction::Goto(2)),
    );
    let outcome = cpu.handle_instruction(&nested);
    assert!(outcome.is_ok());
    assert_eq!(cpu.registers.res, 5);
    assert_eq!(cpu.instruction_pointer, 0);
}

#[test]
fn get_register_reads_each_named_register() {
    let mut cpu = fresh_cpu();
    *cpu.get_register_mut(&"a".to_string()).unwrap() = 10;
    *cpu.get_register_mut(&"b".to_string()).unwrap() = 20;
    *cpu.get_register_mut(&"c".to_string()).unwrap() = 30;
    *cpu.get_register_mut(&"d".to_string()).unwrap() = 40;
    *cpu.get_register_mut(&"res".to_string()).unwrap() = 50;
    assert_eq!(cpu.get_register(&"a".to_string()).unwrap(), 10);
    assert_eq!(cpu.get_register(&"b".to_string()).unwrap(), 20);
    assert_eq!(cpu.get_register(&"c".to_string()).unwrap(), 30);
    assert_eq!(cpu.get_register(&"d".to_string()).unwrap(), 40);
    assert_eq!(cpu.get_register(&"res".to_string()).unwrap(), 50);
    let unknown = cpu.get_register(&"x".to_string());
    assert!(matches!(unknown, Err(VmError::UnknownRegister(name)) if name == "x"));
}
