//! VM functions for working with processes.
use vstd::prelude::*;
use crate::indexes::MethodIndex;
use crate::mem::allocator::{Allocator, BlockAllocator, Pointer, MAX_ALLOCATION_SIZE, MAX_BLOCKS};
use crate::mem::generator::Generator;
use crate::mem::objects::{Class, ClassPointer};
use crate::mem::process::{
    Client,
    ClientPointer,
    Finished,
    RescheduleRights,
    Server,
    ServerPointer,
    BLOCKING,
    MAIN,
    WAITING_FOR_MESSAGE,
    status_has,
    status_update,
};
use crate::scheduler::process_worker::Mode;

verus! {

/// Marks the process as performing a blocking operation, or as no longer
/// doing so, as `blocking` is the true singleton or not.
///
/// Returns the true singleton when the process changed pools; a process
/// that is pinned to a thread can't change pools, and one that already is
/// in the requested pool stays there: both give the false singleton.
pub fn set_blocking(
    server: &mut Server<'_>,
    blocking: Pointer,
    true_singleton: Pointer,
    false_singleton: Pointer,
) -> (r: Pointer)
    ensures
        ({
            let is_blocking = blocking == true_singleton;
            let was_blocking = status_has(old(server).state_view().status_view().bits(), BLOCKING);
            if old(server).thread_view() is Some || is_blocking == was_blocking {
                &&& r == false_singleton
                &&& *final(server) == *old(server)
            } else {
                &&& r == true_singleton
                &&& final(server).state_view().status_view().bits() == status_update(
                    old(server).state_view().status_view().bits(),
                    BLOCKING,
                    is_blocking,
                )
            }
        }),
{
    let is_blocking = blocking == true_singleton;
    if server.thread_id().is_some() || is_blocking == server.is_blocking() {
        return false_singleton;
    }
    if is_blocking {
        server.set_blocking();
    } else {
        server.no_longer_blocking();
    }
    true_singleton
}

/// Pins the process to the thread of the worker `worker`, or unpins it, as
/// `pinned` is the true singleton or not.
///
/// Returns the resulting singleton and the mode the worker continues in:
/// pinning puts the worker in exclusive mode and gives the true singleton,
/// or the false singleton when the process already was pinned; unpinning
/// puts the worker back in normal mode and gives the false singleton.
pub fn set_pinned(
    server: &mut Server<'_>,
    worker: u16,
    pinned: Pointer,
    true_singleton: Pointer,
    false_singleton: Pointer,
) -> (r: (Pointer, Mode))
    ensures
        pinned == true_singleton ==> {
            &&& r.1 == Mode::Exclusive
            &&& old(server).thread_view() is Some ==> r.0 == false_singleton && *final(server)
                == *old(server)
            &&& old(server).thread_view() is None ==> r.0 == true_singleton
                && final(server).thread_view() == Some(worker) && final(server).state_view()
                == old(server).state_view()
        },
        pinned != true_singleton ==> {
            &&& r == (false_singleton, Mode::Normal)
            &&& final(server).thread_view() is None
            &&& final(server).state_view() == old(server).state_view()
        },
{
    if pinned == true_singleton {
        let result = if server.thread_id().is_some() {
            false_singleton
        } else {
            server.pin_to_thread(worker);
            true_singleton
        };
        return (result, Mode::Exclusive);
    }
    server.unpin_from_thread();
    (false_singleton, Mode::Normal)
}

/// Returns a new process of class `server_class` (described by
/// `description`) whose fields are the values of `amount` registers of the
/// generator's current context, from register `start_reg` on, and a client
/// of class `client_class` for it.
///
/// The result is the client's pointer and record, and the process's.
pub fn allocate<'a, A: Allocator>(
    allocator: &mut A,
    blocks: &mut BlockAllocator,
    client_class: ClassPointer,
    server_class: ClassPointer,
    description: &Class,
    generator: &Generator<'_>,
    start_reg: u16,
    amount: u16,
) -> (r: (ClientPointer, Client, ServerPointer, Server<'a>))
    requires
        old(allocator).allocator_wf(old(blocks)),
        old(blocks).wf(),
        old(blocks).num_blocks() + 1 < MAX_BLOCKS,
        description.size() <= MAX_ALLOCATION_SIZE,
        start_reg + amount <= generator.context_view().registers_view().len(),
        amount == description.field_names().len(),
    ensures
        final(allocator).allocator_wf(final(blocks)),
        final(blocks).wf(),
        r.1.class_of() == client_class,
        r.1.server_view() == r.2,
        r.3.class_of() == server_class,
        r.3.fields_view() == generator.context_view().registers_view().subrange(
            start_reg as int,
            start_reg + amount,
        ),
        r.3.state_view().clients_view() == 1,
        r.3.state_view().mailbox_view().len() == 0,
        r.3.state_view().status_view().bits() == crate::mem::process::NORMAL,
        r.3.state_view().timeout_view() is None,
        r.3.thread_view() is None,
        r.3.generator_view() is None,
{
    let (server_pointer, mut server) = Server::allocate(allocator, blocks, server_class, description);
    server.set_values(generator.context().get_registers(start_reg, amount));
    let (client_pointer, client) = Client::allocate(
        allocator,
        blocks,
        client_class,
        server_pointer,
        server.state_mut(),
    );
    (client_pointer, client, server_pointer, server)
}

/// What the scheduler is to do with a process after a message was sent to
/// it.
#[derive(PartialEq, Eq, Debug, Clone, Copy, Structural)]
pub enum MessageAction {
    /// Nothing: the sender did not obtain the rights to reschedule it.
    Nothing,
    /// Schedule the process.
    Schedule,
    /// Count one more expired timeout, then schedule the process.
    ScheduleExpired,
}

/// Sends a message to the process `server` (of class `class`) to run the
/// method in slot `method`, with the values of `amount` registers of the
/// generator's current context from register `start_reg` on as arguments,
/// and says what the scheduler is to do with the process.
pub fn send_message<'a>(
    generator: &Generator<'_>,
    server: &mut Server<'a>,
    class: &'a Class,
    method: u16,
    start_reg: u16,
    amount: u16,
) -> (r: MessageAction)
    requires
        class.wf(),
        method < class.slots(),
        class.slot(method as int) is Some,
        start_reg + amount <= generator.context_view().registers_view().len(),
        amount <= 255,
    ensures
        final(server).state_view().mailbox_view() == old(server).state_view().mailbox_view().push(
            final(server).state_view().mailbox_view().last(),
        ),
        final(server).state_view().mailbox_view().last().inner_view().method == class.slot(
            method as int,
        )->0,
        final(server).state_view().mailbox_view().last().inner_view().arguments@
            == generator.context_view().registers_view().subrange(
            start_reg as int,
            start_reg + amount,
        ),
        r == (if status_has(old(server).state_view().status_view().bits(), WAITING_FOR_MESSAGE) {
            MessageAction::Schedule
        } else {
            MessageAction::Nothing
        }),
{
    let arguments = generator.context().get_registers(start_reg, amount);
    let rights = server.send_message(class, MethodIndex::new(method), arguments);
    proof {
        let after = final(server).state_view().mailbox_view();
        assert(after =~= after.drop_last().push(after.last()));
    }
    match rights {
        RescheduleRights::AcquiredWithTimeout => MessageAction::ScheduleExpired,
        RescheduleRights::Acquired => MessageAction::Schedule,
        RescheduleRights::Failed => MessageAction::Nothing,
    }
}

/// What to do with a process that finished a generator.
#[derive(PartialEq, Eq, Debug, Clone, Copy, Structural)]
pub enum FinishAction {
    /// Schedule the process again: it has messages to process.
    Schedule,
    /// Leave the process: its clients may send it new messages.
    Wait,
    /// Drop the process. When it was pinned to a thread, the worker leaves
    /// exclusive mode; when it is the main process, the program ends with
    /// exit status 0.
    Terminate {
        leave_exclusive_mode: bool,
        exit: bool,
    },
}

/// Decides what to do with a process that finished its generator.
pub fn finish_generator(server: &mut Server<'_>) -> (r: FinishAction)
    ensures
        old(server).state_view().mailbox_view().len() > 0 ==> r == FinishAction::Schedule,
        old(server).state_view().mailbox_view().len() == 0 && old(server).state_view().clients_view()
            > 0 ==> r == FinishAction::Wait,
        old(server).state_view().mailbox_view().len() == 0 && old(server).state_view().clients_view()
            == 0 ==> r == (FinishAction::Terminate {
            leave_exclusive_mode: old(server).thread_view() is Some,
            exit: status_has(old(server).state_view().status_view().bits(), MAIN),
        }),
{
    match server.finish_generator() {
        Finished::Reschedule => FinishAction::Schedule,
        Finished::WaitForMessage => FinishAction::Wait,
        Finished::Terminate => FinishAction::Terminate {
            leave_exclusive_mode: server.thread_id().is_some(),
            exit: server.is_main(),
        },
    }
}

} // verus!
