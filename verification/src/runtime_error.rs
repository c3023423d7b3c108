//! Errors produced while running a process.
use vstd::prelude::*;
use crate::mem::allocator::Pointer;

verus! {

/// An error produced by an instruction while a process runs.
#[derive(Debug, PartialEq, Eq)]
pub enum RuntimeError {
    /// An error that terminates the program, with its message.
    Panic(std::string::String),
    /// A value thrown by the process, to be handled by it.
    Error(Pointer),
    /// A message to throw as an error in the process.
    ErrorMessage(std::string::String),
}

} // verus!
