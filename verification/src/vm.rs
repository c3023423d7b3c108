//! The virtual machine and its instructions.
pub mod instructions;
pub mod machine;
