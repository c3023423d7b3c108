//! Scheduling of processes.
pub mod timeouts;
pub mod process_worker;
