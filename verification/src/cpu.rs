//! The machine state, the instruction dispatcher and the execution loop.
//!
//! [`CpuState`] owns the register file, the call stack, the function table,
//! the program, the instruction pointer, the execution status and the pacing
//! parameters. It is constructed with a target frequency, filled by
//! successive [`CpuState::append_instructions`] calls, and consumed exactly
//! once by [`CpuState::execute`]. Every mutation is proved to follow the
//! semantics in [`crate::semantics`].

use vstd::prelude::*;
use vstd::string::StringExecFns;

use crate::errors::ErrorKind;
use crate::errors::VmError;
use crate::instructions::CpuInstruction;
use crate::instructions::InstructionArgument;
use crate::instructions::clone_instruction;
use crate::memory::Frame;
use crate::memory::MemoryState;
use crate::registers::CpuRegisters;
use crate::registers::register_read;
use crate::registers::register_write;
use crate::semantics::MachineView;
use crate::semantics::dispatch;
use crate::semantics::function_position;
use crate::semantics::is_main_call;
use crate::semantics::resolve_argument;
use crate::semantics::table_lookup;
use crate::semantics::current_step;
use crate::semantics::fails_at;
use crate::semantics::iteration_entry;
use crate::semantics::lemma_dispatch_bounds;
use crate::semantics::lemma_function_position_push;
use crate::semantics::lemma_runs_to_extend;
use crate::semantics::lemma_table_lookup_push;
use crate::semantics::machine_after;
use crate::semantics::machine_halted;
use crate::semantics::runs_to;

verus! {

/// The lifecycle of an execution: it starts as `NotStarted`, becomes
/// `Running` when execution begins, and `Exiting` (terminal) once an `Exit`
/// instruction has been dispatched.
#[derive(Clone, Copy, Debug, PartialEq, Eq, Structural)]
pub enum CpuStatus {
    NotStarted,
    Running,
    Exiting,
}

/// The observable record of one execution step: the instruction pointer as
/// the dispatch left it, and the value of the `res` register.
#[derive(Clone, Copy, Debug, PartialEq, Eq, Structural)]
pub struct TraceEntry {
    pub pointer: usize,
    pub result: u16,
}

/// The virtual CPU. Single owner of all machine state; nothing is shared.
pub struct CpuState {
    /// The pacing target, in instruction steps per second.
    pub frequency: u16,
    /// The minimum wall-clock budget of one instruction step, in
    /// milliseconds: 1000 divided by the frequency.
    pub cycle_duration: usize,
    pub status: CpuStatus,
    /// The program: an append-only sequence of instructions.
    pub instruction_cache: Vec<CpuInstruction>,
    pub instruction_pointer: usize,
    pub registers: CpuRegisters,
    pub memory: MemoryState,
    /// Function name to the position of its marker, built at load time.
    pub function_table: Vec<(String, u16)>,
}

impl CpuState {
    /// The machine view an instruction can observe or change.
    pub open spec fn machine(&self) -> MachineView {
        MachineView {
            registers: self.registers,
            frames: self.memory@,
            instruction_pointer: self.instruction_pointer as nat,
            status: self.status,
            program: self.instruction_cache@,
        }
    }

    /// The function table records exactly the marker positions of the
    /// program: the invariant the loader maintains and calls rely on.
    pub open spec fn table_consistent(&self) -> bool {
        forall|name: Seq<char>| #[trigger] table_lookup(self.function_table@, name)
            == function_position(self.instruction_cache@, name)
    }

    /// Well-formed between loads: consistent table, and a program short
    /// enough that every position (and the one synthetic call appended at
    /// execution start) fits a 16-bit address.
    pub open spec fn wf(&self) -> bool {
        &&& self.table_consistent()
        &&& self.instruction_cache@.len() <= 0xFFFF
    }

    /// What no instruction dispatch ever changes: the pacing parameters,
    /// the function table and the program.
    pub open spec fn same_configuration(a: CpuState, b: CpuState) -> bool {
        &&& a.frequency == b.frequency
        &&& a.cycle_duration == b.cycle_duration
        &&& a.function_table@ == b.function_table@
        &&& a.instruction_cache@ == b.instruction_cache@
    }

    /// Constructs a CPU with the given pacing frequency, or fails with
    /// `InvalidFrequency` when the frequency is zero.
    pub fn new(frequency: u16) -> (r: Result<CpuState, VmError>)
        ensures
            frequency == 0 ==> (r matches Err(e) && e@ == ErrorKind::InvalidFrequency),
            frequency > 0 ==> (r matches Ok(state) && state.frequency == frequency
                && state.cycle_duration == 1000 as int / frequency as int && state.machine()
                == (MachineView {
                registers: (CpuRegisters { a: 0u16, b: 0u16, c: 0u16, d: 0u16, res: 0u16 }),
                frames: Seq::<Frame>::empty(),
                instruction_pointer: 0 as nat,
                status: CpuStatus::NotStarted,
                program: Seq::<CpuInstruction>::empty(),
            }) && state.function_table@ == Seq::<(String, u16)>::empty() && state.wf()),
    {
        if frequency == 0 {
            return Err(VmError::InvalidFrequency);
        }
        let mut cpu_state = CpuState {
            frequency: 0,
            cycle_duration: 0,
            status: CpuStatus::NotStarted,
            instruction_cache: Vec::new(),
            instruction_pointer: 0,
            registers: CpuRegisters::default(),
            memory: MemoryState::default(),
            function_table: Vec::new(),
        };
        match cpu_state.update_frequency(frequency) {
            Ok(()) => {},
            Err(e) => {
                proof {
                    assert(false);
                }
                return Err(e);
            },
        }
        proof {
            assert(cpu_state.memory@ =~= Seq::<Frame>::empty());
            assert forall|name: Seq<char>|
                #[trigger] table_lookup(cpu_state.function_table@, name) == function_position(
                    cpu_state.instruction_cache@,
                    name,
                ) by {}
        }
        Ok(cpu_state)
    }

    /// Retargets the pacing frequency and recomputes the cycle duration, or
    /// fails with `InvalidFrequency` when the new frequency is zero.
    pub fn update_frequency(&mut self, new_frequency: u16) -> (r: Result<(), VmError>)
        ensures
            new_frequency == 0 ==> (r matches Err(e) && e@ == ErrorKind::InvalidFrequency)
                && *final(self) == *old(self),
            new_frequency > 0 ==> r is Ok && *final(self) == (CpuState {
                frequency: new_frequency,
                cycle_duration: (1000 as int / new_frequency as int) as usize,
                ..*old(self)
            }),
    {
        if new_frequency == 0 {
            Err(VmError::InvalidFrequency)
        } else {
            self.frequency = new_frequency;
            self.cycle_duration = 1000 / (new_frequency as usize);
            Ok(())
        }
    }

    /// How long a step that took `elapsed_milliseconds` must still pause to
    /// fill its cycle: the remainder of the cycle duration, never negative.
    pub fn remaining_cycle_time(&self, elapsed_milliseconds: usize) -> (r: usize)
        ensures
            r == if elapsed_milliseconds < self.cycle_duration {
                self.cycle_duration - elapsed_milliseconds
            } else {
                0
            },
    {
        if elapsed_milliseconds < self.cycle_duration {
            self.cycle_duration - elapsed_milliseconds
        } else {
            0
        }
    }

    /// The value of the named register, or `UnknownRegister` when the name
    /// lies outside the closed register set.
    pub fn get_register(&self, register_name: &String) -> (r: Result<u16, VmError>)
        ensures
            register_read(self.registers, register_name@) matches Some(value) ==> r == Ok::<
                u16,
                VmError,
            >(value),
            register_read(self.registers, register_name@) is None ==> (r matches Err(e) && e@
                == ErrorKind::UnknownRegister(register_name@)),
    {
        if *register_name == String::from_str("a") {
            Ok(self.registers.a)
        } else if *register_name == String::from_str("b") {
            Ok(self.registers.b)
        } else if *register_name == String::from_str("c") {
            Ok(self.registers.c)
        } else if *register_name == String::from_str("d") {
            Ok(self.registers.d)
        } else if *register_name == String::from_str("res") {
            Ok(self.registers.res)
        } else {
            Err(VmError::UnknownRegister(register_name.clone()))
        }
    }

    /// Mutable access to the named register, or `UnknownRegister` when the
    /// name lies outside the closed register set.
    pub fn get_register_mut(&mut self, register_name: &String) -> (r: Result<&mut u16, VmError>)
        ensures
            register_read(old(self).registers, register_name@) is None ==> (r matches Err(e)
                && e@ == ErrorKind::UnknownRegister(register_name@)) && *final(self) == *old(self),
            register_read(old(self).registers, register_name@) matches Some(value) ==> r is Ok
                && *r->Ok_0 == value && (register_write(
                old(self).registers,
                register_name@,
                *final(r->Ok_0),
            ) matches Some(updated) && final(self).registers == updated) && *final(self) == (
            CpuState { registers: final(self).registers, ..*old(self) }),
    {
        if *register_name == String::from_str("a") {
            Ok(&mut self.registers.a)
        } else if *register_name == String::from_str("b") {
            Ok(&mut self.registers.b)
        } else if *register_name == String::from_str("c") {
            Ok(&mut self.registers.c)
        } else if *register_name == String::from_str("d") {
            Ok(&mut self.registers.d)
        } else if *register_name == String::from_str("res") {
            Ok(&mut self.registers.res)
        } else {
            Err(VmError::UnknownRegister(register_name.clone()))
        }
    }

    /// The recorded marker position of the named function, or `None` when
    /// the table holds no entry for it.
    pub fn lookup_function(&self, function_name: &String) -> (r: Option<u16>)
        ensures
            r == table_lookup(self.function_table@, function_name@),
    {
        proof {
            assert(self.function_table@.take(self.function_table@.len() as int)
                =~= self.function_table@);
        }
        let mut index = self.function_table.len();
        while index > 0
            invariant
                index <= self.function_table@.len(),
                table_lookup(self.function_table@, function_name@) == table_lookup(
                    self.function_table@.take(index as int),
                    function_name@,
                ),
            decreases index,
        {
            let entry = &self.function_table[index - 1];
            proof {
                assert(self.function_table@.take(index as int).last()
                    == self.function_table@[index - 1]);
                assert(self.function_table@.take(index as int).drop_last()
                    =~= self.function_table@.take(index - 1));
            }
            if entry.0 == *function_name {
                return Some(entry.1);
            }
            index = index - 1;
        }
        None
    }

    /// Scans `instructions` (about to be appended to the program) and
    /// records, for every marker found, its name and its position in the
    /// grown program. Called on each load with only the new suffix: later
    /// entries override earlier ones, so a rescan of the whole program would
    /// record the same table.
    pub fn register_functions(&mut self, instructions: &[CpuInstruction])
        requires
            old(self).table_consistent(),
            old(self).instruction_cache@.len() + instructions@.len() <= 0x10000,
        ensures
            forall|name: Seq<char>| #[trigger] table_lookup(final(self).function_table@, name)
                == function_position(old(self).instruction_cache@ + instructions@, name),
            *final(self) == (CpuState { function_table: final(self).function_table, ..*old(self) }),
    {
        proof {
            assert(old(self).instruction_cache@ + instructions@.take(0)
                =~= old(self).instruction_cache@);
        }
        let offset = self.instruction_cache.len();
        let mut index: usize = 0;
        while index < instructions.len()
            invariant
                index <= instructions@.len(),
                offset == old(self).instruction_cache@.len(),
                offset + instructions@.len() <= 0x10000,
                forall|name: Seq<char>| #[trigger] table_lookup(self.function_table@, name)
                    == function_position(
                    old(self).instruction_cache@ + instructions@.take(index as int),
                    name,
                ),
                *self == (CpuState { function_table: self.function_table, ..*old(self) }),
            decreases instructions@.len() - index,
        {
            let ghost scanned = old(self).instruction_cache@ + instructions@.take(index as int);
            proof {
                assert(old(self).instruction_cache@ + instructions@.take(index + 1)
                    =~= scanned.push(instructions@[index as int]));
            }
            match &instructions[index] {
                CpuInstruction::FunctionMarker(function_name) => {
                    let position = (offset + index) as u16;
                    let ghost table_before = self.function_table@;
                    self.function_table.push((function_name.clone(), position));
                    proof {
                        assert forall|name: Seq<char>|
                            #[trigger] table_lookup(self.function_table@, name)
                                == function_position(
                                scanned.push(instructions@[index as int]),
                                name,
                            ) by {
                            lemma_table_lookup_push(
                                table_before,
                                (self.function_table@.last().0, position),
                                name,
                            );
                            lemma_function_position_push(
                                scanned,
                                instructions@[index as int],
                                name,
                            );
                            assert(self.function_table@.last()
                                == (self.function_table@.last().0, position));
                            assert(self.function_table@.drop_last() =~= table_before);
                        }
                    }
                },
                _ => {
                    proof {
                        assert forall|name: Seq<char>|
                            #[trigger] table_lookup(self.function_table@, name)
                                == function_position(
                                scanned.push(instructions@[index as int]),
                                name,
                            ) by {
                            lemma_function_position_push(
                                scanned,
                                instructions@[index as int],
                                name,
                            );
                        }
                    }
                },
            }
            index = index + 1;
        }
        proof {
            assert(old(self).instruction_cache@ + instructions@.take(instructions@.len() as int)
                =~= old(self).instruction_cache@ + instructions@);
        }
    }

    /// Appends `instructions` to the program and extends the function table
    /// with the newly scanned suffix. Loading is cumulative; nothing else of
    /// the machine changes. The bound keeps every program position (and the
    /// synthetic call appended at execution start) within a 16-bit address.
    pub fn append_instructions(&mut self, instructions: &[CpuInstruction])
        requires
            old(self).wf(),
            old(self).instruction_cache@.len() + instructions@.len() <= 0xFFFF,
        ensures
            final(self).wf(),
            final(self).instruction_cache@ == old(self).instruction_cache@ + instructions@,
            *final(self) == (CpuState {
                instruction_cache: final(self).instruction_cache,
                function_table: final(self).function_table,
                ..*old(self)
            }),
    {
        self.register_functions(instructions);
        let mut index: usize = 0;
        while index < instructions.len()
            invariant
                index <= instructions@.len(),
                self.instruction_cache@ == old(self).instruction_cache@ + instructions@.take(
                    index as int,
                ),
                forall|name: Seq<char>| #[trigger] table_lookup(self.function_table@, name)
                    == function_position(old(self).instruction_cache@ + instructions@, name),
                *self == (CpuState {
                    instruction_cache: self.instruction_cache,
                    function_table: self.function_table,
                    ..*old(self)
                }),
            decreases instructions@.len() - index,
        {
            let instruction_copy = clone_instruction(&instructions[index]);
            self.instruction_cache.push(instruction_copy);
            proof {
                assert(self.instruction_cache@ =~= old(self).instruction_cache@
                    + instructions@.take(index + 1));
            }
            index = index + 1;
        }
        proof {
            assert(old(self).instruction_cache@ + instructions@.take(instructions@.len() as int)
                =~= old(self).instruction_cache@ + instructions@);
        }
    }

    /// Resolves one instruction argument to a value: a literal is itself, a
    /// register reference reads the register file, and a stack slot reads
    /// the active frame under the zero-extension policy (which may grow the
    /// frame as an observable side effect).
    pub fn fetch_argument_value(&mut self, argument: &InstructionArgument) -> (r: Result<
        u16,
        VmError,
    >)
        ensures
            final(self).machine() == resolve_argument(old(self).machine(), *argument).0,
            (match resolve_argument(old(self).machine(), *argument).1 {
                Ok(value) => r == Ok::<u16, VmError>(value),
                Err(kind) => r matches Err(e) && e@ == kind,
            }),
            Self::same_configuration(*old(self), *final(self)),
    {
        match argument {
            InstructionArgument::StackSlot(index) => {
                let outcome = self.memory.read_slot(*index);
                proof {
                    if old(self).memory@.len() > 0 {
                        assert(self.machine() == resolve_argument(
                            old(self).machine(),
                            *argument,
                        ).0);
                    }
                }
                outcome
            },
            InstructionArgument::RegisterRef(register_name) => self.get_register(register_name),
            InstructionArgument::Literal(value) => Ok(*value),
        }
    }

    /// Dispatches one instruction: the single-step transition of the
    /// machine, proved equal to [`dispatch`] of the machine view. On an
    /// error the machine keeps the mutations already made before the
    /// failing point, and execution is meant to stop.
    pub fn handle_instruction(&mut self, instruction: &CpuInstruction) -> (r: Result<(), VmError>)
        requires
            old(self).table_consistent(),
        ensures
            final(self).machine() == dispatch(old(self).machine(), *instruction).machine,
            r is Ok <==> dispatch(old(self).machine(), *instruction).error is None,
            (r matches Err(e) ==> dispatch(old(self).machine(), *instruction).error == Some(e@)),
            Self::same_configuration(*old(self), *final(self)),
        decreases *instruction,
    {
        match instruction {
            CpuInstruction::Add(a, b) => {
                let x = match self.fetch_argument_value(a) {
                    Ok(value) => value,
                    Err(e) => {
                        return Err(e);
                    },
                };
                let y = match self.fetch_argument_value(b) {
                    Ok(value) => value,
                    Err(e) => {
                        return Err(e);
                    },
                };
                self.registers.res = (((x as u32) + (y as u32)) % 0x10000) as u16;
                Ok(())
            },
            CpuInstruction::Sub(a, b) => {
                let x = match self.fetch_argument_value(a) {
                    Ok(value) => value,
                    Err(e) => {
                        return Err(e);
                    },
                };
                let y = match self.fetch_argument_value(b) {
                    Ok(value) => value,
                    Err(e) => {
                        return Err(e);
                    },
                };
                self.registers.res = (((x as u32) + 0x10000 - (y as u32)) % 0x10000) as u16;
                Ok(())
            },
            CpuInstruction::Mov(from, to) => {
                let value = match self.fetch_argument_value(from) {
                    Ok(value) => value,
                    Err(e) => {
                        return Err(e);
                    },
                };
                match to {
                    InstructionArgument::StackSlot(index) => {
                        match self.memory.write_data(*index, value) {
                            Ok(()) => Ok(()),
                            Err(e) => Err(e),
                        }
                    },
                    InstructionArgument::RegisterRef(register_name) => {
                        match self.get_register_mut(register_name) {
                            Ok(register) => {
                                *register = value;
                                Ok(())
                            },
                            Err(e) => Err(e),
                        }
                    },
                    InstructionArgument::Literal(_) => Err(VmError::InvalidMovDestination),
                }
            },
            CpuInstruction::Eq(a, b) => {
                let x = match self.fetch_argument_value(a) {
                    Ok(value) => value,
                    Err(e) => {
                        return Err(e);
                    },
                };
                let y = match self.fetch_argument_value(b) {
                    Ok(value) => value,
                    Err(e) => {
                        return Err(e);
                    },
                };
                self.registers.res = if x == y {
                    1
                } else {
                    0
                };
                Ok(())
            },
            CpuInstruction::FunctionMarker(_) => Ok(()),
            CpuInstruction::Return => {
                let return_address = match self.memory.get_current_sub_stack() {
                    Ok(frame) => frame.return_address,
                    Err(e) => {
                        return Err(e);
                    },
                };
                match self.memory.rewind_stack() {
                    Ok(()) => {},
                    Err(e) => {
                        proof {
                            assert(false);
                        }
                        return Err(e);
                    },
                }
                self.instruction_pointer = return_address as usize;
                Ok(())
            },
            CpuInstruction::Call(function_name) => {
                match self.lookup_function(function_name) {
                    None => Err(VmError::UnknownFunction(function_name.clone())),
                    Some(position) => {
                        self.memory.create_new_sub_stack(self.instruction_pointer as u16);
                        self.instruction_pointer = position as usize;
                        Ok(())
                    },
                }
            },
            CpuInstruction::Goto(address) => {
                self.instruction_pointer = *address as usize;
                Ok(())
            },
            CpuInstruction::If(condition, then_branch, else_branch) => {
                let value = match self.fetch_argument_value(condition) {
                    Ok(value) => value,
                    Err(e) => {
                        return Err(e);
                    },
                };
                if value >= 1 {
                    self.handle_instruction(&**then_branch)
                } else {
                    self.handle_instruction(&**else_branch)
                }
            },
            CpuInstruction::Exit => {
                self.status = CpuStatus::Exiting;
                Ok(())
            },
        }
    }

    /// Begins an execution: fails with `MissingMainFunction`, touching
    /// nothing, when no function named "main" exists; otherwise appends the
    /// one synthetic call of "main", points the instruction pointer at it,
    /// and marks the machine running.
    pub fn start(&mut self) -> (r: Result<(), VmError>)
        requires
            old(self).wf(),
        ensures
            function_position(old(self).instruction_cache@, "main"@) is None ==> (r matches Err(e)
                && e@ == ErrorKind::MissingMainFunction) && *final(self) == *old(self),
            function_position(old(self).instruction_cache@, "main"@) is Some ==> r is Ok
                && final(self).instruction_cache@.len() == old(self).instruction_cache@.len() + 1
                && final(self).instruction_cache@.drop_last() == old(self).instruction_cache@
                && is_main_call(final(self).instruction_cache@.last())
                && final(self).instruction_pointer == old(self).instruction_cache@.len()
                && final(self).status is Running
                && final(self).registers == old(self).registers
                && final(self).memory@ == old(self).memory@
                && final(self).frequency == old(self).frequency
                && final(self).cycle_duration == old(self).cycle_duration
                && final(self).function_table@ == old(self).function_table@
                && final(self).table_consistent(),
    {
        let main_name = String::from_str("main");
        match self.lookup_function(&main_name) {
            None => Err(VmError::MissingMainFunction),
            Some(_) => {
                self.status = CpuStatus::Running;
                self.instruction_pointer = self.instruction_cache.len();
                let ghost cache_before = self.instruction_cache@;
                self.instruction_cache.push(CpuInstruction::Call(main_name));
                proof {
                    assert(self.instruction_cache@.drop_last() =~= cache_before);
                    assert forall|name: Seq<char>|
                        #[trigger] table_lookup(self.function_table@, name) == function_position(
                            self.instruction_cache@,
                            name,
                        ) by {
                        lemma_function_position_push(
                            cache_before,
                            self.instruction_cache@.last(),
                            name,
                        );
                    }
                }
                Ok(())
            },
        }
    }

    /// One iteration of the execution loop. Stops (returning `Ok(None)` and
    /// changing nothing) when the pointer is out of range or the status is
    /// exiting; otherwise fetches the instruction at the pointer, dispatches
    /// it, and unconditionally advances the pointer by one, returning the
    /// step's trace record, or the fatal error that stopped the dispatch.
    pub fn step(&mut self) -> (r: Result<Option<TraceEntry>, VmError>)
        requires
            old(self).table_consistent(),
            old(self).instruction_cache@.len() <= 0x10000,
            old(self).instruction_pointer <= 0x10000,
        ensures
            machine_halted(old(self).machine()) ==> r == Ok::<Option<TraceEntry>, VmError>(None)
                && *final(self) == *old(self),
            !machine_halted(old(self).machine()) ==> Self::same_configuration(
                *old(self),
                *final(self),
            ) && final(self).instruction_pointer <= 0x10000 && (match current_step(
                old(self).machine(),
            ).error {
                None => r == Ok::<Option<TraceEntry>, VmError>(
                    Some(iteration_entry(old(self).machine())),
                ) && final(self).machine() == machine_after(old(self).machine()),
                Some(kind) => (r matches Err(e) && e@ == kind) && final(self).machine()
                    == current_step(old(self).machine()).machine,
            }),
    {
        if self.instruction_pointer >= self.instruction_cache.len() {
            return Ok(None);
        }
        match self.status {
            CpuStatus::Exiting => {
                return Ok(None);
            },
            _ => {},
        }
        let instruction = clone_instruction(&self.instruction_cache[self.instruction_pointer]);
        proof {
            lemma_dispatch_bounds(self.machine(), instruction);
        }
        match self.handle_instruction(&instruction) {
            Err(e) => Err(e),
            Ok(()) => {
                let entry = TraceEntry { pointer: self.instruction_pointer, result: self.registers.res };
                self.instruction_pointer = self.instruction_pointer + 1;
                Ok(Some(entry))
            },
        }
    }
}

/// The outcome of a whole execution: one trace record per dispatched
/// instruction, the count of instructions executed, and the fatal error
/// that stopped the run, if one did.
#[derive(Debug)]
pub struct ExecutionReport {
    pub trace: Vec<TraceEntry>,
    pub executed: usize,
    pub error: Option<VmError>,
}

impl CpuState {
    /// Consumes the machine and runs it to termination: appends the
    /// synthetic call of "main" (failing with `MissingMainFunction`, and
    /// executing nothing, when no such function exists), then repeats
    /// fetch, dispatch and advance until the pointer leaves the program, an
    /// `Exit` is dispatched, or a fatal error surfaces.
    ///
    /// The report's trace records exactly the performed iterations of the
    /// started machine, per [`runs_to`]; with no error the final machine
    /// has halted — unless the run performed `usize::MAX` steps, the step
    /// budget of one execution, which a real program exhausts no sooner
    /// The machine at which an execution of `origin` begins: `origin`'s
    /// registers and frames, the status running, the pointer at the
    /// appended synthetic call of "main".
    pub open spec fn started_machine(origin: CpuState, synthetic: CpuInstruction) -> MachineView {
        MachineView {
            registers: origin.registers,
            frames: origin.memory@,
            instruction_pointer: origin.instruction_cache@.len() as nat,
            status: CpuStatus::Running,
            program: origin.instruction_cache@.push(synthetic),
        }
    }

    /// What a report of a started execution of `origin` means: the trace
    /// records exactly the performed iterations, and the run stopped by
    /// halting (or by exhausting the step budget of `usize::MAX` steps)
    /// when no error is reported, and at the reported fatal error
    /// otherwise.
    pub open spec fn run_reported(
        origin: CpuState,
        trace: Seq<TraceEntry>,
        error: Option<VmError>,
    ) -> bool {
        exists|synthetic: CpuInstruction, stopped: MachineView|
            {
                &&& is_main_call(synthetic)
                &&& #[trigger] runs_to(Self::started_machine(origin, synthetic), trace, stopped)
                &&& (match error {
                    None => machine_halted(stopped) || trace.len() == usize::MAX,
                    Some(e) => fails_at(stopped, e@),
                })
            }
    }

    /// than its trace exhausts the address space.
    pub fn execute(self) -> (r: ExecutionReport)
        requires
            self.wf(),
        ensures
            function_position(self.instruction_cache@, "main"@) is None ==> r.trace@.len() == 0
                && r.executed == 0 && (r.error matches Some(e) && e@
                == ErrorKind::MissingMainFunction),
            function_position(self.instruction_cache@, "main"@) is Some ==> Self::run_reported(
                self,
                r.trace@,
                r.error,
            ),
            r.executed == r.trace@.len(),
    {
        let mut state = self;
        match state.start() {
            Err(e) => ExecutionReport { trace: Vec::new(), executed: 0, error: Some(e) },
            Ok(()) => {
                let ghost synthetic = state.instruction_cache@.last();
                let ghost started = state.machine();
                proof {
                    assert(state.instruction_cache@ =~= self.instruction_cache@.push(synthetic));
                    assert(started == MachineView {
                        registers: self.registers,
                        frames: self.memory@,
                        instruction_pointer: self.instruction_cache@.len() as nat,
                        status: CpuStatus::Running,
                        program: self.instruction_cache@.push(synthetic),
                    });
                }
                let mut trace: Vec<TraceEntry> = Vec::new();
                loop
                    invariant
                        state.table_consistent(),
                        state.instruction_cache@.len() <= 0x10000,
                        state.instruction_pointer <= 0x10000,
                        trace@.len() <= usize::MAX,
                        runs_to(started, trace@, state.machine()),
                        is_main_call(synthetic),
                        function_position(self.instruction_cache@, "main"@) is Some,
                        started == (MachineView {
                            registers: self.registers,
                            frames: self.memory@,
                            instruction_pointer: self.instruction_cache@.len() as nat,
                            status: CpuStatus::Running,
                            program: self.instruction_cache@.push(synthetic),
                        }),
                    decreases usize::MAX - trace@.len(),
                {
                    let ghost before_step = state.machine();
                    if trace.len() == usize::MAX {
                    proof {
                        assert(runs_to(
                            Self::started_machine(self, synthetic),
                            trace@,
                            state.machine(),
                        ));
                        assert(Self::run_reported(self, trace@, None::<VmError>));
                    }
                        return ExecutionReport { executed: trace.len(), trace, error: None };
                    }
                    match state.step() {
                        Err(e) => {
                            proof {
                                assert(fails_at(before_step, e@));
                            }
                            proof {
                                assert(runs_to(
                                    Self::started_machine(self, synthetic),
                                    trace@,
                                    before_step,
                                ));
                                assert(Self::run_reported(self, trace@, Some(e)));
                            }
                            return ExecutionReport {
                                executed: trace.len(),
                                trace,
                                error: Some(e),
                            };
                        },
                        Ok(None) => {
                            proof {
                                assert(machine_halted(state.machine()));
                            }
                    proof {
                        assert(runs_to(
                            Self::started_machine(self, synthetic),
                            trace@,
                            state.machine(),
                        ));
                        assert(Self::run_reported(self, trace@, None::<VmError>));
                    }
                            return ExecutionReport { executed: trace.len(), trace, error: None };
                        },
                        Ok(Some(entry)) => {
                            proof {
                                lemma_runs_to_extend(started, trace@, before_step);
                            }
                            trace.push(entry);
                        },
                    }
                }
            },
        }
    }
}

} // verus!
