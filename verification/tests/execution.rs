use toy_cpu::cpu::CpuState;
use toy_cpu::errors::VmError;
use toy_cpu::instructions::CpuInstruction;
use toy_cpu::instructions::InstructionArgument;

#[test]
fn zero_frequency_is_rejected_at_construction() {
    assert!(matches!(CpuState::new(0), Err(VmError::InvalidFrequency)));
}

#[test]
fn the_cycle_duration_is_the_integer_millisecond_share_of_a_second() {
    let cpu = CpuState::new(100).unwrap();
    assert_eq!(cpu.frequency, 100);
    assert_eq!(cpu.cycle_duration, 10);
    let fast = CpuState::new(1000).unwrap();
    assert_eq!(fast.cycle_duration, 1);
}

#[test]
fn the_frequency_can_be_retargeted_but_never_to_zero() {
    let mut cpu = CpuState::new(100).unwrap();
    cpu.update_frequency(50).unwrap();
    assert_eq!(cpu.frequency, 50);
    assert_eq!(cpu.cycle_duration, 20);
    assert!(matches!(cpu.update_frequency(0), Err(VmError::InvalidFrequency)));
    assert_eq!(cpu.frequency, 50);
}

#[test]
fn the_pacing_pause_is_the_cycle_remainder_and_never_negative() {
    let cpu = CpuState::new(100).unwrap();
    assert_eq!(cpu.remaining_cycle_time(3), 7);
    assert_eq!(cpu.remaining_cycle_time(10), 0);
    assert_eq!(cpu.remaining_cycle_time(250), 0);
    assert_eq!(cpu.remaining_cycle_time(0), 10);
}

#[test]
fn executing_without_a_main_function_fails_and_runs_nothing() {
    let mut cpu = CpuState::new(100).unwrap();
    cpu.append_instructions(&[CpuInstruction::Add(
        InstructionArgument::Literal(1),
        InstructionArgument::Literal(1),
    )]);
    let report = cpu.execute();
    assert!(matches!(report.error, Some(VmError::MissingMainFunction)));
    assert_eq!(report.trace.len(), 0);
    assert_eq!(report.executed, 0);
}

#[test]
fn a_minimal_main_runs_the_synthetic_call_the_add_and_the_return() {
    let mut cpu = CpuState::new(1000).unwrap();
    cpu.append_instructions(&[
        CpuInstruction::FunctionMarker("main".to_string()),
        CpuInstruction::Add(InstructionArgument::Literal(1), InstructionArgument::Literal(1)),
        CpuInstruction::Return,
    ]);
    let report = cpu.execute();
    assert!(report.error.is_none());
    // The synthetic call lands one past the marker, so the add is the
    // second step and the return the third; the marker itself is skipped
    // without a dispatch of its own.
    assert_eq!(report.executed, 3);
    assert_eq!(report.trace.len(), 3);
    assert_eq!(report.trace.last().unwrap().result, 2);
    // Pointers as the dispatches left them: the call jumps to the marker
    // at 0, the add runs at 1, the return jumps back to the synthetic
    // call's position 3.
    assert_eq!(report.trace[0].pointer, 0);
    assert_eq!(report.trace[1].pointer, 1);
    assert_eq!(report.trace[2].pointer, 3);
}

#[test]
fn a_call_returns_exactly_one_position_past_the_original_call() {
    let mut cpu = CpuState::new(1000).unwrap();
    cpu.append_instructions(&[
        CpuInstruction::FunctionMarker("main".to_string()),
        CpuInstruction::Mov(
            InstructionArgument::Literal(7),
            InstructionArgument::RegisterRef("a".to_string()),
        ),
        CpuInstruction::Call("helper".to_string()),
        CpuInstruction::Mov(
            InstructionArgument::Literal(8),
            InstructionArgument::RegisterRef("b".to_string()),
        ),
        CpuInstruction::Exit,
        CpuInstruction::FunctionMarker("helper".to_string()),
        CpuInstruction::Return,
    ]);
    let report = cpu.execute();
    assert!(report.error.is_none());
    let pointers: Vec<usize> = report.trace.iter().map(|entry| entry.pointer).collect();
    // Synthetic call at 7 jumps to main's marker at 0; the mov runs at 1;
    // the call at 2 jumps to the helper's marker at 5; the return at 6
    // jumps back to the call's own position 2; the advance resumes at 3,
    // exactly one past the original call; the exit runs at 4.
    assert_eq!(pointers, vec![0, 1, 5, 2, 3, 4]);
}

#[test]
fn exit_stops_the_run_before_later_instructions() {
    let mut cpu = CpuState::new(1000).unwrap();
    cpu.append_instructions(&[
        CpuInstruction::FunctionMarker("main".to_string()),
        CpuInstruction::Exit,
        CpuInstruction::Add(InstructionArgument::Literal(1), InstructionArgument::Literal(1)),
    ]);
    let report = cpu.execute();
    assert!(report.error.is_none());
    assert_eq!(report.executed, 2);
    assert_eq!(report.trace.last().unwrap().result, 0);
}

#[test]
fn calling_an_unregistered_function_is_a_fatal_error() {
    let mut cpu = CpuState::new(1000).unwrap();
    cpu.append_instructions(&[
        CpuInstruction::FunctionMarker("main".to_string()),
        CpuInstruction::Call("absent".to_string()),
    ]);
    let report = cpu.execute();
    assert!(matches!(report.error, Some(VmError::UnknownFunction(name)) if name == "absent"));
    // The synthetic call ran; the failing call produced no trace record.
    assert_eq!(report.executed, 1);
}

#[test]
fn trace_lines_before_a_fatal_error_remain_valid_history() {
    let mut cpu = CpuState::new(1000).unwrap();
    cpu.append_instructions(&[
        CpuInstruction::FunctionMarker("main".to_string()),
        CpuInstruction::Add(InstructionArgument::Literal(2), InstructionArgument::Literal(3)),
        CpuInstruction::Mov(InstructionArgument::Literal(1), InstructionArgument::Literal(2)),
    ]);
    let report = cpu.execute();
    assert!(matches!(report.error, Some(VmError::InvalidMovDestination)));
    assert_eq!(report.executed, 2);
    assert_eq!(report.trace[1].result, 5);
}

#[test]
fn loading_is_cumulative_and_positions_are_absolute() {
    let mut cpu = CpuState::new(1000).unwrap();
    cpu.append_instructions(&[
        CpuInstruction::FunctionMarker("main".to_string()),
        CpuInstruction::Return,
    ]);
    cpu.append_instructions(&[
        CpuInstruction::FunctionMarker("late".to_string()),
        CpuInstruction::Return,
    ]);
    assert_eq!(cpu.lookup_function(&"main".to_string()), Some(0));
    assert_eq!(cpu.lookup_function(&"late".to_string()), Some(2));
    assert_eq!(cpu.lookup_function(&"absent".to_string()), None);
}

#[test]
fn a_remarked_function_name_keeps_the_last_marker_position() {
    let mut cpu = CpuState::new(1000).unwrap();
    cpu.append_instructions(&[
        CpuInstruction::FunctionMarker("twice".to_string()),
        CpuInstruction::FunctionMarker("twice".to_string()),
    ]);
    assert_eq!(cpu.lookup_function(&"twice".to_string()), Some(1));
}

#[test]
fn stepping_by_hand_matches_a_whole_execution() {
    let program = [
        CpuInstruction::FunctionMarker("main".to_string()),
        CpuInstruction::Add(InstructionArgument::Literal(1), InstructionArgument::Literal(1)),
        CpuInstruction::Return,
    ];
    let mut stepped = CpuState::new(1000).unwrap();
    stepped.append_instructions(&program);
    stepped.start().unwrap();
    let mut entries = Vec::new();
    loop {
        match stepped.step() {
            Ok(None) => break,
            Ok(Some(entry)) => entries.push(entry),
            Err(e) => panic!("unexpected fatal error: {:?}", e),
        }
    }
    let mut executed = CpuState::new(1000).unwrap();
    executed.append_instructions(&program);
    let report = executed.execute();
    assert_eq!(entries.len(), report.trace.len());
    for (mine, reported) in entries.iter().zip(report.trace.iter()) {
        assert_eq!(mine.pointer, reported.pointer);
        assert_eq!(mine.result, reported.result);
    }
}

#[test]
fn starting_without_a_main_function_changes_nothing() {
    let mut cpu = CpuState::new(1000).unwrap();
    cpu.append_instructions(&[CpuInstruction::Return]);
    let outcome = cpu.start();
    assert!(matches!(outcome, Err(VmError::MissingMainFunction)));
    assert_eq!(cpu.instruction_cache.len(), 1);
    assert_eq!(cpu.instruction_pointer, 0);
}

#[test]
fn a_counting_loop_runs_to_its_bound_and_returns() {
    // Count slot 0 up to 10; on equality return, else jump back to the
    // loop head (the jump lands one past the marker at 0).
    let mut cpu = CpuState::new(1000).unwrap();
    cpu.append_instructions(&[
        CpuInstruction::FunctionMarker("main".to_string()),
        CpuInstruction::Add(InstructionArgument::StackSlot(0), InstructionArgument::Literal(1)),
        CpuInstruction::Mov(
            InstructionArgument::RegisterRef("res".to_string()),
            InstructionArgument::StackSlot(0),
        ),
        CpuInstruction::Eq(InstructionArgument::StackSlot(0), InstructionArgument::Literal(10)),
        CpuInstruction::If(
            InstructionArgument::RegisterRef("res".to_string()),
            Box::new(CpuInstruction::Return),
            Box::new(CpuInstruction::Goto(0)),
        ),
    ]);
    let report = cpu.execute();
    assert!(report.error.is_none());
    // Ten rounds of add, mov and eq, each but the last closed by the
    // jumping if, the last by the returning if, after the synthetic call.
    assert_eq!(report.executed, 41);
    assert_eq!(report.trace.last().unwrap().result, 1);
}

#[test]
fn goto_lands_one_position_past_its_target() {
    let mut cpu = CpuState::new(1000).unwrap();
    cpu.append_instructions(&[
        CpuInstruction::FunctionMarker("main".to_string()),
        CpuInstruction::Goto(3),
        CpuInstruction::Add(InstructionArgument::Literal(5), InstructionArgument::Literal(5)),
        CpuInstruction::Add(InstructionArgument::Literal(7), InstructionArgument::Literal(7)),
        CpuInstruction::Exit,
    ]);
    let report = cpu.execute();
    assert!(report.error.is_none());
    let pointers: Vec<usize> = report.trace.iter().map(|entry| entry.pointer).collect();
    // The jump sets the pointer to 3 and the unconditional advance resumes
    // at 4: neither add is ever dispatched, so the result stays zero.
    assert_eq!(pointers, vec![0, 3, 4]);
    assert_eq!(report.trace.last().unwrap().result, 0);
}
