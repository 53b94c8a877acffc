//! The mathematical semantics of the virtual CPU.
//!
//! [`dispatch`] gives the meaning of a single instruction as a total
//! function from a machine view and an instruction to the next machine view
//! and an optional fatal error. [`runs_to`] chains whole loop iterations
//! (fetch, dispatch, record one trace entry, advance the pointer by one)
//! into the meaning of an entire execution. The executable engine in
//! [`crate::cpu`] is proved to follow these functions step by step.

use vstd::prelude::*;

use crate::errors::ErrorKind;
use crate::instructions::CpuInstruction;
use crate::instructions::InstructionArgument;
use crate::memory::Frame;
use crate::memory::read_slot_value;
use crate::memory::write_slot;
use crate::memory::zero_extend;
use crate::registers::CpuRegisters;
use crate::registers::register_read;
use crate::registers::register_write;
use crate::cpu::CpuStatus;
use crate::cpu::TraceEntry;

verus! {

/// Everything an instruction can observe or change: the register file, the
/// call stack, the instruction pointer, the execution status, and the
/// (append-only, and during execution constant) program.
pub ghost struct MachineView {
    pub registers: CpuRegisters,
    pub frames: Seq<Frame>,
    pub instruction_pointer: nat,
    pub status: CpuStatus,
    pub program: Seq<CpuInstruction>,
}

/// Whether `instruction` is the marker that declares the function `name`.
pub open spec fn marker_names(instruction: CpuInstruction, name: Seq<char>) -> bool {
    instruction matches CpuInstruction::FunctionMarker(n) && n@ == name
}

/// The position of the `FunctionMarker` for `name` in `program` (the
/// marker's own position, not one past it). When several markers share a
/// name, the last one wins, as for a table built by successive inserts.
pub open spec fn function_position(program: Seq<CpuInstruction>, name: Seq<char>) -> Option<u16>
    decreases program.len(),
{
    if program.len() == 0 {
        None
    } else if marker_names(program.last(), name) {
        Some(((program.len() - 1) as u16))
    } else {
        function_position(program.drop_last(), name)
    }
}

/// The position recorded for `name` in a function table laid out as a list
/// of (name, position) entries, later entries overriding earlier ones.
pub open spec fn table_lookup(table: Seq<(String, u16)>, name: Seq<char>) -> Option<u16>
    decreases table.len(),
{
    if table.len() == 0 {
        None
    } else if table.last().0@ == name {
        Some(table.last().1)
    } else {
        table_lookup(table.drop_last(), name)
    }
}

/// Whether `instruction` is a call of the function named "main" (the
/// synthetic instruction appended once, right before execution starts).
pub open spec fn is_main_call(instruction: CpuInstruction) -> bool {
    instruction matches CpuInstruction::Call(n) && n@ == "main"@
}

/// The sum modulo 2^16: wrapping arithmetic, no overflow trap.
pub open spec fn wrap_add(x: u16, y: u16) -> u16 {
    ((x + y) % 0x10000) as u16
}

/// The difference modulo 2^16: wrapping arithmetic, no underflow trap.
pub open spec fn wrap_sub(x: u16, y: u16) -> u16 {
    ((x - y + 0x10000) % 0x10000) as u16
}

/// The result of resolving one argument: the machine afterwards (resolving
/// a stack slot may grow the active frame), and the value read, or the
/// error that stopped execution.
pub open spec fn resolve_argument(m: MachineView, argument: InstructionArgument) -> (
    MachineView,
    Result<u16, ErrorKind>,
) {
    match argument {
        InstructionArgument::StackSlot(index) => {
            if m.frames.len() == 0 {
                (m, Err(ErrorKind::EmptyCallStack))
            } else {
                (
                    MachineView {
                        frames: m.frames.update(
                            0,
                            Frame {
                                return_address: m.frames[0].return_address,
                                locals: zero_extend(m.frames[0].locals, index as nat),
                            },
                        ),
                        ..m
                    },
                    Ok(read_slot_value(m.frames[0].locals, index as nat)),
                )
            }
        },
        InstructionArgument::RegisterRef(name) => match register_read(m.registers, name@) {
            Some(value) => (m, Ok(value)),
            None => (m, Err(ErrorKind::UnknownRegister(name@))),
        },
        InstructionArgument::Literal(value) => (m, Ok(value)),
    }
}

/// The machine after one dispatch, and the error that stopped it, if any.
/// On an error the machine keeps the mutations already made (an argument
/// resolved before the failing one may have grown the active frame).
pub ghost struct StepView {
    pub machine: MachineView,
    pub error: Option<ErrorKind>,
}

/// The meaning shared by the arithmetic and comparison instructions:
/// resolve both arguments left to right, then set `res` to `op` of the two
/// values.
pub open spec fn dispatch_binary(
    m: MachineView,
    a: InstructionArgument,
    b: InstructionArgument,
    op: spec_fn(u16, u16) -> u16,
) -> StepView {
    let first = resolve_argument(m, a);
    match first.1 {
        Err(e) => StepView { machine: first.0, error: Some(e) },
        Ok(x) => {
            let second = resolve_argument(first.0, b);
            match second.1 {
                Err(e) => StepView { machine: second.0, error: Some(e) },
                Ok(y) => StepView {
                    machine: MachineView {
                        registers: CpuRegisters { res: op(x, y), ..second.0.registers },
                        ..second.0
                    },
                    error: None,
                },
            }
        },
    }
}

/// The meaning of `Mov`: resolve the source, then write the value to a
/// register or a stack slot; a literal destination is an error.
pub open spec fn dispatch_mov(
    m: MachineView,
    from: InstructionArgument,
    to: InstructionArgument,
) -> StepView {
    let first = resolve_argument(m, from);
    match first.1 {
        Err(e) => StepView { machine: first.0, error: Some(e) },
        Ok(value) => {
            let m1 = first.0;
            match to {
                InstructionArgument::StackSlot(index) => {
                    if m1.frames.len() == 0 {
                        StepView { machine: m1, error: Some(ErrorKind::EmptyCallStack) }
                    } else {
                        StepView {
                            machine: MachineView {
                                frames: m1.frames.update(
                                    0,
                                    Frame {
                                        return_address: m1.frames[0].return_address,
                                        locals: write_slot(
                                            m1.frames[0].locals,
                                            index as nat,
                                            value,
                                        ),
                                    },
                                ),
                                ..m1
                            },
                            error: None,
                        }
                    }
                },
                InstructionArgument::RegisterRef(name) => {
                    match register_write(m1.registers, name@, value) {
                        Some(registers) => StepView {
                            machine: MachineView { registers, ..m1 },
                            error: None,
                        },
                        None => StepView {
                            machine: m1,
                            error: Some(ErrorKind::UnknownRegister(name@)),
                        },
                    }
                },
                InstructionArgument::Literal(_) => StepView {
                    machine: m1,
                    error: Some(ErrorKind::InvalidMovDestination),
                },
            }
        },
    }
}

/// The single-step transition function of the dispatcher: the meaning of
/// one instruction, including the recursive meaning of `If` branches.
pub open spec fn dispatch(m: MachineView, instruction: CpuInstruction) -> StepView
    decreases instruction,
{
    match instruction {
        CpuInstruction::Add(a, b) => dispatch_binary(m, a, b, |x: u16, y: u16| wrap_add(x, y)),
        CpuInstruction::Sub(a, b) => dispatch_binary(m, a, b, |x: u16, y: u16| wrap_sub(x, y)),
        CpuInstruction::Mov(from, to) => dispatch_mov(m, from, to),
        CpuInstruction::Eq(a, b) => dispatch_binary(
            m,
            a,
            b,
            |x: u16, y: u16| if x == y { 1u16 } else { 0u16 },
        ),
        CpuInstruction::FunctionMarker(_) => StepView { machine: m, error: None },
        CpuInstruction::Return => {
            if m.frames.len() == 0 {
                StepView { machine: m, error: Some(ErrorKind::EmptyCallStack) }
            } else {
                StepView {
                    machine: MachineView {
                        frames: m.frames.subrange(1, m.frames.len() as int),
                        instruction_pointer: m.frames[0].return_address as nat,
                        ..m
                    },
                    error: None,
                }
            }
        },
        CpuInstruction::Call(name) => match function_position(m.program, name@) {
            Some(position) => StepView {
                machine: MachineView {
                    frames: seq![
                        Frame {
                            return_address: m.instruction_pointer as u16,
                            locals: Seq::<u16>::empty(),
                        },
                    ] + m.frames,
                    instruction_pointer: position as nat,
                    ..m
                },
                error: None,
            },
            None => StepView { machine: m, error: Some(ErrorKind::UnknownFunction(name@)) },
        },
        CpuInstruction::Goto(address) => StepView {
            machine: MachineView { instruction_pointer: address as nat, ..m },
            error: None,
        },
        CpuInstruction::If(condition, then_branch, else_branch) => {
            let first = resolve_argument(m, condition);
            match first.1 {
                Err(e) => StepView { machine: first.0, error: Some(e) },
                Ok(value) => {
                    if value >= 1 {
                        dispatch(first.0, *then_branch)
                    } else {
                        dispatch(first.0, *else_branch)
                    }
                },
            }
        },
        CpuInstruction::Exit => StepView {
            machine: MachineView { status: CpuStatus::Exiting, ..m },
            error: None,
        },
    }
}

/// Whether the execution loop stops before dispatching anything: the
/// pointer is out of range, or an `Exit` has been dispatched.
pub open spec fn machine_halted(m: MachineView) -> bool {
    m.instruction_pointer >= m.program.len() || m.status is Exiting
}

/// The step the loop is about to take: the dispatch of the instruction at
/// the current pointer.
pub open spec fn current_step(m: MachineView) -> StepView {
    dispatch(m, m.program[m.instruction_pointer as int])
}

/// The trace record one successful iteration emits: the pointer as the
/// dispatch left it, before the unconditional advance, and the value of
/// `res` after the dispatch.
pub open spec fn iteration_entry(m: MachineView) -> TraceEntry {
    TraceEntry {
        pointer: current_step(m).machine.instruction_pointer as usize,
        result: current_step(m).machine.registers.res,
    }
}

/// The machine after one full, successful loop iteration: the dispatched
/// machine with the pointer advanced by one, unconditionally, whatever the
/// dispatch did to it.
pub open spec fn machine_after(m: MachineView) -> MachineView {
    MachineView {
        instruction_pointer: current_step(m).machine.instruction_pointer + 1,
        ..current_step(m).machine
    }
}

/// Whether the execution loop, started at `m`, performs exactly the
/// iterations recorded in `trace` (each successful) and reaches `m2`.
pub open spec fn runs_to(m: MachineView, trace: Seq<TraceEntry>, m2: MachineView) -> bool
    decreases trace.len(),
{
    if trace.len() == 0 {
        m2 == m
    } else {
        &&& !machine_halted(m)
        &&& current_step(m).error is None
        &&& trace[0] == iteration_entry(m)
        &&& runs_to(machine_after(m), trace.drop_first(), m2)
    }
}

/// Whether the loop, arrived at `m`, stops there by dispatching the current
/// instruction and hitting the fatal error `e`.
pub open spec fn fails_at(m: MachineView, e: ErrorKind) -> bool {
    !machine_halted(m) && current_step(m).error == Some(e)
}

/// Resolving an argument never touches the registers, the pointer, the
/// status or the program, and dispatching an instruction never touches the
/// program; a dispatch leaves the pointer at or below 0xFFFF when it was
/// there before, since any new pointer value comes from a 16-bit address.
pub proof fn lemma_dispatch_bounds(m: MachineView, instruction: CpuInstruction)
    ensures
        dispatch(m, instruction).machine.program == m.program,
        m.instruction_pointer <= 0xFFFF ==> dispatch(
            m,
            instruction,
        ).machine.instruction_pointer <= 0xFFFF,
    decreases instruction,
{
    match instruction {
        CpuInstruction::If(condition, then_branch, else_branch) => {
            let first = resolve_argument(m, condition);
            lemma_dispatch_bounds(first.0, *then_branch);
            lemma_dispatch_bounds(first.0, *else_branch);
        },
        _ => {},
    }
}

/// Appending an instruction to a program adds the marker position for its
/// name when it is a marker, and changes no other function's position.
pub proof fn lemma_function_position_push(
    program: Seq<CpuInstruction>,
    instruction: CpuInstruction,
    name: Seq<char>,
)
    ensures
        function_position(program.push(instruction), name) == if marker_names(
            instruction,
            name,
        ) {
            Some((program.len() as u16))
        } else {
            function_position(program, name)
        },
{
    assert(program.push(instruction).drop_last() =~= program);
    assert(program.push(instruction).last() == instruction);
}

/// Appending an entry to a function table overrides the position recorded
/// for its name and changes no other name's position.
pub proof fn lemma_table_lookup_push(
    table: Seq<(String, u16)>,
    entry: (String, u16),
    name: Seq<char>,
)
    ensures
        table_lookup(table.push(entry), name) == if entry.0@ == name {
            Some(entry.1)
        } else {
            table_lookup(table, name)
        },
{
    assert(table.push(entry).drop_last() =~= table);
    assert(table.push(entry).last() == entry);
}

/// Adding two literals never fails: it sets `res` to their sum modulo 2^16
/// and leaves the general registers a–d, the frames, the pointer and the
/// status unchanged.
pub proof fn lemma_add_literals(m: MachineView, x: u16, y: u16)
    ensures
        dispatch_add_literals(m, x, y).error is None,
        dispatch_add_literals(m, x, y).machine.registers.res == wrap_add(x, y),
        dispatch_add_literals(m, x, y).machine.registers.a == m.registers.a,
        dispatch_add_literals(m, x, y).machine.registers.b == m.registers.b,
        dispatch_add_literals(m, x, y).machine.registers.c == m.registers.c,
        dispatch_add_literals(m, x, y).machine.registers.d == m.registers.d,
        dispatch_add_literals(m, x, y).machine.frames == m.frames,
        dispatch_add_literals(m, x, y).machine.instruction_pointer == m.instruction_pointer,
        dispatch_add_literals(m, x, y).machine.status == m.status,
{
}

/// The dispatch of an addition of two literal values.
pub open spec fn dispatch_add_literals(m: MachineView, x: u16, y: u16) -> StepView {
    dispatch(
        m,
        CpuInstruction::Add(InstructionArgument::Literal(x), InstructionArgument::Literal(y)),
    )
}

/// Subtracting two literals never fails: it sets `res` to their difference
/// modulo 2^16 — wrapping, so a larger subtrahend wraps around — and leaves
/// the general registers a–d, the frames, the pointer and the status
/// unchanged.
pub proof fn lemma_sub_literals(m: MachineView, x: u16, y: u16)
    ensures
        dispatch_sub_literals(m, x, y).error is None,
        dispatch_sub_literals(m, x, y).machine.registers.res == wrap_sub(x, y),
        dispatch_sub_literals(m, x, y).machine.registers.a == m.registers.a,
        dispatch_sub_literals(m, x, y).machine.registers.b == m.registers.b,
        dispatch_sub_literals(m, x, y).machine.registers.c == m.registers.c,
        dispatch_sub_literals(m, x, y).machine.registers.d == m.registers.d,
        dispatch_sub_literals(m, x, y).machine.frames == m.frames,
        dispatch_sub_literals(m, x, y).machine.instruction_pointer == m.instruction_pointer,
        dispatch_sub_literals(m, x, y).machine.status == m.status,
{
}

/// The dispatch of a subtraction of two literal values.
pub open spec fn dispatch_sub_literals(m: MachineView, x: u16, y: u16) -> StepView {
    dispatch(
        m,
        CpuInstruction::Sub(InstructionArgument::Literal(x), InstructionArgument::Literal(y)),
    )
}

/// Comparing two literals never fails: it sets `res` to 1 exactly when the
/// values are equal and to 0 otherwise, and leaves the general registers
/// a–d, the frames, the pointer and the status unchanged.
pub proof fn lemma_eq_literals(m: MachineView, x: u16, y: u16)
    ensures
        dispatch_eq_literals(m, x, y).error is None,
        dispatch_eq_literals(m, x, y).machine.registers.res == if x == y {
            1u16
        } else {
            0u16
        },
        dispatch_eq_literals(m, x, y).machine.registers.a == m.registers.a,
        dispatch_eq_literals(m, x, y).machine.registers.b == m.registers.b,
        dispatch_eq_literals(m, x, y).machine.registers.c == m.registers.c,
        dispatch_eq_literals(m, x, y).machine.registers.d == m.registers.d,
        dispatch_eq_literals(m, x, y).machine.frames == m.frames,
        dispatch_eq_literals(m, x, y).machine.instruction_pointer == m.instruction_pointer,
        dispatch_eq_literals(m, x, y).machine.status == m.status,
{
}

/// The dispatch of a comparison of two literal values.
pub open spec fn dispatch_eq_literals(m: MachineView, x: u16, y: u16) -> StepView {
    dispatch(
        m,
        CpuInstruction::Eq(InstructionArgument::Literal(x), InstructionArgument::Literal(y)),
    )
}

/// A slot read yields the stored value when the slot is in range and zero
/// for any slot never grown to — an unwritten slot reads as zero.
pub proof fn lemma_read_slot_value(locals: Seq<u16>, index: nat)
    ensures
        read_slot_value(locals, index) == if index < locals.len() {
            locals[index as int]
        } else {
            0u16
        },
{
}

/// The round trip of a call: dispatching `Call` pushes a frame that records
/// the call's own position as its return address, and dispatching `Return`
/// through that frame sets the pointer back to that position — so after the
/// loop's unconditional advance by one, execution resumes exactly one
/// position past the original call.
pub proof fn lemma_call_return_round_trip(
    caller: MachineView,
    call_instruction: CpuInstruction,
    callee: MachineView,
)
    requires
        (call_instruction matches CpuInstruction::Call(name) && function_position(
            caller.program,
            name@,
        ) is Some),
        caller.instruction_pointer <= 0xFFFF,
        callee.frames.len() > 0,
        callee.frames[0] == dispatch(caller, call_instruction).machine.frames[0],
    ensures
        dispatch(caller, call_instruction).error is None,
        dispatch(caller, call_instruction).machine.frames[0].return_address
            == caller.instruction_pointer,
        dispatch(callee, CpuInstruction::Return).error is None,
        dispatch(callee, CpuInstruction::Return).machine.instruction_pointer
            == caller.instruction_pointer,
{
    let after_call = dispatch(caller, call_instruction).machine;
    assert(after_call.frames[0] == Frame {
        return_address: caller.instruction_pointer as u16,
        locals: Seq::<u16>::empty(),
    });
}

/// A run extends by one successful iteration at its end.
pub proof fn lemma_runs_to_extend(m0: MachineView, trace: Seq<TraceEntry>, m1: MachineView)
    requires
        runs_to(m0, trace, m1),
        !machine_halted(m1),
        current_step(m1).error is None,
    ensures
        runs_to(m0, trace.push(iteration_entry(m1)), machine_after(m1)),
    decreases trace.len(),
{
    let extended = trace.push(iteration_entry(m1));
    if trace.len() == 0 {
        assert(m1 == m0);
        assert(extended[0] == iteration_entry(m0));
        assert(extended.drop_first() =~= Seq::<TraceEntry>::empty());
        assert(runs_to(machine_after(m0), extended.drop_first(), machine_after(m1)));
    } else {
        lemma_runs_to_extend(machine_after(m0), trace.drop_first(), m1);
        assert(extended.drop_first() =~= trace.drop_first().push(iteration_entry(m1)));
        assert(extended[0] == trace[0]);
        assert(runs_to(machine_after(m0), extended.drop_first(), machine_after(m1)));
    }
}

} // verus!
