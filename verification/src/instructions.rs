//! The instruction set of the virtual CPU.
//!
//! Arithmetic and comparison instructions write their result to the `res`
//! register. The two branches of an `If` are single nested instructions and
//! may nest arbitrarily deep.

use vstd::prelude::*;

verus! {

/// One operand of an instruction.
#[derive(Debug)]
pub enum InstructionArgument {
    /// Read from the given slot of the active frame's local storage.
    StackSlot(u16),
    /// Read from the register with the given name.
    RegisterRef(String),
    /// A hard-coded value.
    Literal(u16),
}

/// One instruction of the virtual CPU.
#[derive(Debug)]
pub enum CpuInstruction {
    /// Resolve both arguments and set `res` to their sum modulo 2^16.
    Add(InstructionArgument, InstructionArgument),
    /// Resolve both arguments and set `res` to their difference modulo 2^16.
    Sub(InstructionArgument, InstructionArgument),
    /// Resolve the first argument and write it to the second, which must be
    /// a register or a stack slot, never a literal.
    Mov(InstructionArgument, InstructionArgument),
    /// Resolve both arguments and set `res` to 1 if they are equal, else 0.
    Eq(InstructionArgument, InstructionArgument),
    /// Declares a function: a load-time artifact with no runtime effect.
    FunctionMarker(String),
    /// Return from the current function to its recorded return address.
    Return,
    /// Push a new frame and jump to the named function's marker position.
    Call(String),
    /// Jump to the instruction at the given position.
    Goto(u16),
    /// Resolve the condition; dispatch the first instruction if it is at
    /// least 1, else the second. A single recursive dispatch, not a jump.
    If(InstructionArgument, Box<CpuInstruction>, Box<CpuInstruction>),
    /// Transition the execution status to exiting.
    Exit,
}

/// A copy of `argument` equal to the original, usable in proofs about the
/// fetched instruction.
pub fn clone_argument(argument: &InstructionArgument) -> (r: InstructionArgument)
    ensures
        r == *argument,
{
    match argument {
        InstructionArgument::StackSlot(index) => InstructionArgument::StackSlot(*index),
        InstructionArgument::RegisterRef(name) => InstructionArgument::RegisterRef(name.clone()),
        InstructionArgument::Literal(value) => InstructionArgument::Literal(*value),
    }
}

/// A copy of `instruction` equal to the original. The execution loop copies
/// the fetched instruction out of the program before dispatching it.
pub fn clone_instruction(instruction: &CpuInstruction) -> (r: CpuInstruction)
    ensures
        r == *instruction,
    decreases *instruction,
{
    match instruction {
        CpuInstruction::Add(a, b) => CpuInstruction::Add(clone_argument(a), clone_argument(b)),
        CpuInstruction::Sub(a, b) => CpuInstruction::Sub(clone_argument(a), clone_argument(b)),
        CpuInstruction::Mov(from, to) => CpuInstruction::Mov(clone_argument(from), clone_argument(to)),
        CpuInstruction::Eq(a, b) => CpuInstruction::Eq(clone_argument(a), clone_argument(b)),
        CpuInstruction::FunctionMarker(name) => CpuInstruction::FunctionMarker(name.clone()),
        CpuInstruction::Return => CpuInstruction::Return,
        CpuInstruction::Call(name) => CpuInstruction::Call(name.clone()),
        CpuInstruction::Goto(address) => CpuInstruction::Goto(*address),
        CpuInstruction::If(condition, then_branch, else_branch) => CpuInstruction::If(
            clone_argument(condition),
            Box::new(clone_instruction(&**then_branch)),
            Box::new(clone_instruction(&**else_branch)),
        ),
        CpuInstruction::Exit => CpuInstruction::Exit,
    }
}

} // verus!
