//! The fatal error kinds of the virtual CPU.
//!
//! Every error aborts execution immediately: there is no retry and no
//! partial recovery. Each kind records which rule of the machine was broken.

use vstd::prelude::*;

verus! {

/// Mathematical image of a [`VmError`]: the same kinds, with register and
/// function names abstracted to their character sequences.
pub ghost enum ErrorKind {
    /// An argument or destination names a register outside {a, b, c, d, res}.
    UnknownRegister(Seq<char>),
    /// A call targets a name absent from the function table.
    UnknownFunction(Seq<char>),
    /// No function named "main" exists when execution starts.
    MissingMainFunction,
    /// A move targets a literal, which is never a write target.
    InvalidMovDestination,
    /// A return or a stack-slot access occurs with no active frame.
    EmptyCallStack,
    /// A zero frequency was supplied at construction.
    InvalidFrequency,
}

/// A fatal interpreter error, surfaced to the caller of the operation
/// during which it arose.
#[derive(Debug)]
pub enum VmError {
    /// An argument or destination names a register outside {a, b, c, d, res}.
    UnknownRegister(String),
    /// A call targets a name absent from the function table.
    UnknownFunction(String),
    /// No function named "main" exists when execution starts.
    MissingMainFunction,
    /// A move targets a literal, which is never a write target.
    InvalidMovDestination,
    /// A return or a stack-slot access occurs with no active frame.
    EmptyCallStack,
    /// A zero frequency was supplied at construction.
    InvalidFrequency,
}

impl View for VmError {
    type V = ErrorKind;

    open spec fn view(&self) -> ErrorKind {
        match self {
            VmError::UnknownRegister(name) => ErrorKind::UnknownRegister(name@),
            VmError::UnknownFunction(name) => ErrorKind::UnknownFunction(name@),
            VmError::MissingMainFunction => ErrorKind::MissingMainFunction,
            VmError::InvalidMovDestination => ErrorKind::InvalidMovDestination,
            VmError::EmptyCallStack => ErrorKind::EmptyCallStack,
            VmError::InvalidFrequency => ErrorKind::InvalidFrequency,
        }
    }
}

} // verus!
