//! Handlers for the instructions of the virtual machine.
pub mod array;
pub mod byte_array;
pub mod control_flow;
pub mod future;
pub mod general;
pub mod generator;
pub mod integer;
pub mod module;
pub mod object;
pub mod process;
pub mod string;
