//! Workers that run the processes of a scheduler queue.
use vstd::prelude::*;

verus! {

/// The state that a worker is in.
#[derive(Eq, PartialEq, Debug, Clone, Copy, Structural)]
pub enum Mode {
    /// The worker should process its own queue or other queues in a normal
    /// fashion.
    Normal,
    /// The worker should only process a particular job, and not steal any other
    /// jobs.
    Exclusive,
}

} // verus!
