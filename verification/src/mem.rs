//! Memory management: allocators and the objects they hold.
pub mod allocator;
pub mod objects;
pub mod generator;
pub mod process;
pub mod permanent_space;
