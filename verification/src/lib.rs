use vstd::prelude::*;

pub mod numeric;
pub mod instruction;
pub mod image;
pub mod indexes;
pub mod config;
pub mod mem;
pub mod registers;
pub mod variable_scope;
pub mod execution_context;
pub mod scheduler;
pub mod process;
pub mod objects;
pub mod test;
pub mod vm;
pub mod external_functions;
pub mod hasher;
pub mod runtime_error;
