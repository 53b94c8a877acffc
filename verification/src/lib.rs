//! A toy virtual CPU: a fetch-decode-execute engine over a small fixed
//! instruction set, with a named register file, a call stack of per-function
//! local storage, and a function table built at load time.
//!
//! The crate is organised along the machine's components:
//! - [`errors`]: the fatal error kinds an execution can surface;
//! - [`memory`]: the call stack of frames with lazily zero-extended locals;
//! - [`instructions`]: the instruction set and its arguments;
//! - [`semantics`]: the mathematical single-step and whole-run semantics
//!   that the executable engine is proved against;
//! - [`cpu`]: the machine state, the dispatcher and the execution loop.

pub mod cpu;
pub mod errors;
pub mod instructions;
pub mod memory;
pub mod registers;
pub mod semantics;
