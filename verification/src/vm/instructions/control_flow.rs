//! VM instruction handlers for flow control related operations.
use vstd::prelude::*;
use crate::instruction::Instruction;

verus! {

/// Jumps to a specific instruction: returns the index of the instruction to
/// jump to, the first argument of the instruction.
pub fn goto(instruction: &Instruction) -> (r: usize)
    ensures
        r == instruction.arguments[0],
{
    instruction.arg(0) as usize
}

} // verus!
