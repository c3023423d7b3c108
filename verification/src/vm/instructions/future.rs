//! VM functions for working with futures.
use vstd::prelude::*;
use crate::mem::allocator::Pointer;
use crate::mem::process::{
    FutureResult,
    FutureState,
    ProcessState,
    ServerPointer,
    WAITING_FOR_FUTURE,
    read_value,
    status_update,
};
use crate::runtime_error::RuntimeError;

verus! {

/// Reads a future for the process `process`, whose state is `state`, without
/// a timeout.
///
/// A returned value comes back as `Some`, and a thrown value as an error to
/// throw again. While no value was written, the process becomes the
/// future's consumer and waits for it: the result is `None`.
pub fn get(process: ServerPointer, state: &mut ProcessState<'_>, future: &mut FutureState) -> (r:
    Result<Option<Pointer>, RuntimeError>)
    ensures
        r == (match read_value(*old(future)) {
            FutureResult::Returned(value) => Ok::<Option<Pointer>, RuntimeError>(Some(value)),
            FutureResult::Thrown(value) => Err::<Option<Pointer>, RuntimeError>(
                RuntimeError::Error(value),
            ),
            FutureResult::Pending => Ok::<Option<Pointer>, RuntimeError>(None),
        }),
        match old(future).result_view() {
            Some(_) => {
                &&& final(future).result_view() is None
                &&& final(future).consumer_view() is None
                &&& final(state).status_view().bits() == status_update(
                    old(state).status_view().bits(),
                    WAITING_FOR_FUTURE,
                    false,
                )
                &&& final(state).timeout_view() == old(state).timeout_view()
            },
            None => {
                &&& final(future).result_view() is None
                &&& final(future).consumer_view() == Some(process)
                &&& final(state).status_view().bits() == status_update(
                    old(state).status_view().bits(),
                    WAITING_FOR_FUTURE,
                    true,
                )
                &&& final(state).timeout_view() is None
            },
        },
        final(future).thrown_view() == old(future).thrown_view(),
        final(future).disconnected_view() == old(future).disconnected_view(),
        final(state).clients_view() == old(state).clients_view(),
        final(state).mailbox_view() == old(state).mailbox_view(),
{
    match future.get(process, state, None) {
        FutureResult::Returned(value) => Ok(Some(value)),
        FutureResult::Thrown(value) => Err(RuntimeError::Error(value)),
        FutureResult::Pending => Ok(None),
    }
}

} // verus!
