//! Functions the runtime offers to Inko code.
pub mod array;
pub mod blocks;
pub mod byte_array;
pub mod hasher;
pub mod integer;
pub mod modules;
pub mod object;
pub mod process;
pub mod random;
pub mod string;
