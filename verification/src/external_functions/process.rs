//! Functions for Inko processes.
use vstd::prelude::*;
use crate::execution_context::ExecutionContext;
use crate::mem::allocator::{Allocator, BlockAllocator, Pointer, MAX_BLOCKS};
use crate::mem::generator::Generator;
use crate::mem::permanent_space::PermanentSpace;
use crate::mem::process::{Client, ClientPointer, ProcessState};

verus! {

/// A frame of a stack trace: the file and the name of the method that runs,
/// and the line of the instruction being run.
pub struct StackFrame {
    pub file: std::string::String,
    pub name: std::string::String,
    pub line: u16,
}

/// The index of the instruction whose line a context reports: the one before
/// its stored instruction index.
pub open spec fn line_index(context: ExecutionContext) -> int {
    if context.index > 0 {
        context.index - 1
    } else {
        0
    }
}

/// The contexts a stack trace covers: `skip` contexts are left out, starting
/// at the current one, and at most `limit` are kept when `limit` is not zero.
pub open spec fn traced<'a>(contexts: Seq<ExecutionContext<'a>>, limit: usize, skip: usize) -> Seq<
    ExecutionContext<'a>,
> {
    let rest = if skip <= contexts.len() {
        contexts.subrange(skip as int, contexts.len() as int)
    } else {
        Seq::empty()
    };
    if limit > 0 && limit < rest.len() {
        rest.take(limit as int)
    } else {
        rest
    }
}

/// Returns the stack trace of the generator: the frames of the contexts that
/// `traced` selects, the outermost first.
pub fn process_stacktrace(generator: &Generator<'_>, limit: usize, skip: usize) -> (r: Vec<StackFrame>)
    requires
        forall|i: int|
            0 <= i < generator.all_contexts().len() ==> line_index(#[trigger] generator.all_contexts()[i])
                < generator.all_contexts()[i].method.instructions@.len(),
    ensures
        ({
            let frames = traced(generator.all_contexts(), limit, skip);
            &&& r@.len() == frames.len()
            &&& forall|i: int|
                0 <= i < r@.len() ==> {
                    let c = #[trigger] frames[frames.len() - 1 - i];
                    &&& r@[i].file@ == c.method.file@
                    &&& r@[i].name@ == c.method.name@
                    &&& r@[i].line == c.method.instructions@[line_index(c)].line
                }
        }),
{
    let contexts = generator.contexts();
    let ghost all = generator.all_contexts();
    let len = contexts.len();
    let start = if skip <= len {
        skip
    } else {
        len
    };
    let end = if limit > 0 && limit < len - start {
        start + limit
    } else {
        len
    };
    let ghost frames = traced(all, limit, skip);
    proof {
        assert(frames.len() == end - start);
        assert forall|k: int| 0 <= k < frames.len() implies frames[k] == all[start + k] by {}
    }
    let mut trace: Vec<StackFrame> = Vec::new();
    let mut index = end;
    while index > start
        invariant
            start <= index <= end,
            end <= len,
            len == contexts@.len(),
            contexts@.len() == all.len(),
            forall|k: int| 0 <= k < contexts@.len() ==> *(#[trigger] contexts@[k]) == all[k],
            forall|i: int|
                0 <= i < all.len() ==> line_index(#[trigger] all[i]) < all[i].method.instructions@.len(),
            frames.len() == end - start,
            forall|k: int| 0 <= k < frames.len() ==> frames[k] == all[start + k],
            trace@.len() == end - index,
            forall|i: int|
                0 <= i < trace@.len() ==> {
                    let c = #[trigger] frames[frames.len() - 1 - i];
                    &&& trace@[i].file@ == c.method.file@
                    &&& trace@[i].name@ == c.method.name@
                    &&& trace@[i].line == c.method.instructions@[line_index(c)].line
                },
        decreases index - start,
    {
        index = index - 1;
        let context = contexts[index];
        proof {
            assert(*context == all[index as int]);
            assert(frames[frames.len() - 1 - trace@.len()] == all[index as int]);
        }
        let frame = StackFrame {
            file: context.method.file.clone(),
            name: context.method.name.clone(),
            line: context.line(),
        };
        trace.push(frame);
    }
    trace
}

/// Returns a new client of the server that `client` is a client of; the
/// server, whose state is `state`, gains a client.
pub fn process_client_clone<A: Allocator>(
    allocator: &mut A,
    blocks: &mut BlockAllocator,
    space: &PermanentSpace,
    client: &Client,
    state: &mut ProcessState<'_>,
) -> (r: (ClientPointer, Client))
    requires
        old(allocator).allocator_wf(old(blocks)),
        old(blocks).wf(),
        old(blocks).num_blocks() < MAX_BLOCKS,
        old(state).clients_view() < usize::MAX,
    ensures
        final(allocator).allocator_wf(final(blocks)),
        final(blocks).wf(),
        r.1.server_view() == client.server_view(),
        r.1.class_of() == space.client_class.pointer_view(),
        final(state).clients_view() == old(state).clients_view() + 1,
        final(state).mailbox_view() == old(state).mailbox_view(),
        final(state).status_view() == old(state).status_view(),
        final(state).timeout_view() == old(state).timeout_view(),
{
    Client::allocate(allocator, blocks, space.client_class(), client.server(), state)
}

/// Drops a client of the server whose state is `state`, returning nil; the
/// server loses a client.
pub fn process_client_drop(
    space: &PermanentSpace,
    client: Client,
    state: &mut ProcessState<'_>,
) -> (r: Pointer)
    requires
        old(state).clients_view() > 0,
    ensures
        r == space.nil_singleton,
        final(state).clients_view() == old(state).clients_view() - 1,
        final(state).mailbox_view() == old(state).mailbox_view(),
        final(state).status_view() == old(state).status_view(),
        final(state).timeout_view() == old(state).timeout_view(),
{
    Client::drop(client, state);
    space.nil_singleton
}

} // verus!
