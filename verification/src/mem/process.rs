//! Data structures for Inko processes and futures.
//!
//! The state a process shares with its clients and with the futures it
//! waits for is a plain value here; whoever shares it (behind a lock) passes
//! it to the functions that decide what happens to it.
use vstd::prelude::*;
use std::collections::VecDeque;
use std::sync::Arc;
use crate::execution_context::ExecutionContext;
use crate::indexes::{FieldIndex, MethodIndex};
use crate::mem::allocator::{Allocator, BlockAllocator, Pointer, MAX_BLOCKS};
use crate::mem::generator::{Generator, GeneratorPointer};
use crate::mem::objects::{Class, ClassPointer, Header, Method};
use crate::scheduler::timeouts::{same_allocation, Timeout};

verus! {

/// The size of a client object, in bytes.
pub const CLIENT_SIZE: usize = 24;

/// The size of a future object, in bytes.
pub const FUTURE_SIZE: usize = 24;

/// The shared state of a future.
pub struct FutureState {
    /// The process that's waiting for this future to complete.
    consumer: Option<ServerPointer>,
    /// The result of a message.
    result: Option<Pointer>,
    /// A boolean indicating that the result was produced by throwing an error,
    /// instead of returning it.
    thrown: bool,
    /// A boolean indicating the future is disconnected: set whenever a
    /// reader or writer is dropped.
    disconnected: bool,
}

impl FutureState {
    /// The process waiting for the future.
    pub closed spec fn consumer_view(&self) -> Option<ServerPointer> {
        self.consumer
    }

    /// The value written to the future, if any.
    pub closed spec fn result_view(&self) -> Option<Pointer> {
        self.result
    }

    /// Whether the value was thrown.
    pub closed spec fn thrown_view(&self) -> bool {
        self.thrown
    }

    /// Whether the reader or the writer is gone.
    pub closed spec fn disconnected_view(&self) -> bool {
        self.disconnected
    }

    /// Returns the state of a new future: no consumer, no result.
    pub fn new() -> (r: FutureState)
        ensures
            r.consumer_view() is None,
            r.result_view() is None,
            !r.thrown_view(),
            !r.disconnected_view(),
    {
        FutureState { consumer: None, result: None, thrown: false, disconnected: false }
    }

    /// Marks the future as disconnected, as dropping its reader or writer
    /// does.
    pub fn disconnect(&mut self)
        ensures
            final(self).disconnected_view(),
            final(self).consumer_view() == old(self).consumer_view(),
            final(self).result_view() == old(self).result_view(),
            final(self).thrown_view() == old(self).thrown_view(),
    {
        self.disconnected = true;
    }

    /// Writes the result of a message to the future.
    ///
    /// `consumer` is the state of the process waiting for the future, if one
    /// is. A disconnected future discards the value. Otherwise the value is
    /// stored, and the waiting process, if any, is rescheduled when the write
    /// gives the rights to do so.
    pub fn write(&mut self, result: Pointer, thrown: bool, consumer: &mut ProcessState<'_>) -> (r: WriteResult)
        ensures
            old(self).disconnected_view() ==> {
                &&& r == WriteResult::Discard
                &&& *final(self) == *old(self)
                &&& *final(consumer) == *old(consumer)
            },
            !old(self).disconnected_view() ==> {
                &&& final(self).result_view() == Some(result)
                &&& final(self).thrown_view() == thrown
                &&& final(self).consumer_view() is None
                &&& !final(self).disconnected_view()
                &&& match old(self).consumer_view() {
                    None => r == WriteResult::Continue && *final(consumer) == *old(consumer),
                    Some(c) => {
                        let rights = reschedule_for_future(*old(consumer));
                        &&& *final(consumer) == rights.1
                        &&& r == (match rights.0 {
                            RescheduleRights::Failed => WriteResult::Continue,
                            RescheduleRights::Acquired => WriteResult::Reschedule(c),
                            RescheduleRights::AcquiredWithTimeout => WriteResult::RescheduleWithTimeout(c),
                        })
                    },
                }
            },
    {
        if self.disconnected {
            return WriteResult::Discard;
        }
        self.thrown = thrown;
        self.result = Some(result);
        match self.consumer.take() {
            Some(process) => {
                match consumer.try_reschedule_for_future() {
                    RescheduleRights::Failed => WriteResult::Continue,
                    RescheduleRights::Acquired => WriteResult::Reschedule(process),
                    RescheduleRights::AcquiredWithTimeout => WriteResult::RescheduleWithTimeout(process),
                }
            },
            None => WriteResult::Continue,
        }
    }

    /// Gets the value from the future, for the process `consumer` whose state
    /// is `state`.
    ///
    /// A value that was written is taken out and returned, and the process
    /// no longer waits for a future. Otherwise the process becomes the
    /// consumer of the future and waits for it, with the given timeout, and
    /// `FutureResult::Pending` tells it to stop running until a producer
    /// reschedules it.
    pub fn get(
        &mut self,
        consumer: ServerPointer,
        state: &mut ProcessState<'_>,
        timeout: Option<Arc<Timeout>>,
    ) -> (r: FutureResult)
        ensures
            r == read_value(*old(self)),
            match old(self).result_view() {
                Some(value) => {
                    &&& final(self).result_view() is None
                    &&& final(self).consumer_view() is None
                    &&& final(state).status_view().bits() == status_update(
                        old(state).status_view().bits(),
                        WAITING_FOR_FUTURE,
                        false,
                    )
                    &&& final(state).timeout_view() == old(state).timeout_view()
                },
                None => {
                    &&& r == FutureResult::Pending
                    &&& final(self).result_view() is None
                    &&& final(self).consumer_view() == Some(consumer)
                    &&& final(state).status_view().bits() == status_update(
                        old(state).status_view().bits(),
                        WAITING_FOR_FUTURE,
                        true,
                    )
                    &&& final(state).timeout_view() == timeout
                },
            },
            final(self).thrown_view() == old(self).thrown_view(),
            final(self).disconnected_view() == old(self).disconnected_view(),
            final(state).clients_view() == old(state).clients_view(),
            final(state).mailbox_view() == old(state).mailbox_view(),
    {
        match self.result.take() {
            Some(value) => {
                self.consumer = None;
                state.status.set_waiting_for_future(false);
                if self.thrown {
                    FutureResult::Thrown(value)
                } else {
                    FutureResult::Returned(value)
                }
            },
            None => {
                self.consumer = Some(consumer);
                state.waiting_for_future(timeout);
                FutureResult::Pending
            },
        }
    }
}

/// What reading a future gives: its value, returned or thrown as it was
/// written, or `Pending` while no value was written.
pub open spec fn read_value(future: FutureState) -> FutureResult {
    match future.result_view() {
        Some(value) => if future.thrown_view() {
            FutureResult::Thrown(value)
        } else {
            FutureResult::Returned(value)
        },
        None => FutureResult::Pending,
    }
}

/// A value written to a connected future is what the next read gives back,
/// returned or thrown as it was written; a read takes the value out, so the
/// read after it gives `Pending`.
pub proof fn lemma_read_after_write(written: FutureState, read: FutureState, result: Pointer, thrown: bool)
    requires
        written.result_view() == Some(result),
        written.thrown_view() == thrown,
        read.result_view() is None,
    ensures
        read_value(written) == (if thrown {
            FutureResult::Thrown(result)
        } else {
            FutureResult::Returned(result)
        }),
        read_value(read) == FutureResult::Pending,
{
}

/// A message scheduled for execution at some point in the future: the method
/// to run and its arguments.
pub struct MessageInner<'a> {
    /// The method to run.
    pub method: &'a Method,
    /// The number of arguments of this message.
    pub length: u8,
    /// The arguments of the message.
    pub arguments: Vec<Pointer>,
}

/// An owned message.
pub struct Message<'a>(Box<MessageInner<'a>>);

impl<'a> Message<'a> {
    /// The message.
    pub closed spec fn inner_view(&self) -> MessageInner<'a> {
        *self.0
    }

    /// Returns a message to run `method` with the given arguments.
    pub fn new(method: &'a Method, arguments: &[Pointer]) -> (r: Self)
        requires
            arguments@.len() <= 255,
        ensures
            r.inner_view().method == method,
            r.inner_view().length == arguments@.len(),
            r.inner_view().arguments@ == arguments@,
    {
        let mut values: Vec<Pointer> = Vec::new();
        let mut i: usize = 0;
        while i < arguments.len()
            invariant
                i <= arguments@.len(),
                values@ == arguments@.subrange(0, i as int),
            decreases arguments@.len() - i,
        {
            values.push(arguments[i]);
            i = i + 1;
            assert(values@ =~= arguments@.subrange(0, i as int));
        }
        assert(values@ =~= arguments@);
        Message(Box::new(MessageInner { method, length: arguments.len() as u8, arguments: values }))
    }

    /// Returns the message.
    pub fn inner(&self) -> (r: &MessageInner<'a>)
        ensures
            *r == self.inner_view(),
    {
        &self.0
    }
}

/// A collection of messages to be processed by a process, in the order they
/// were sent.
pub struct Mailbox<'a> {
    messages: VecDeque<Message<'a>>,
}

impl<'a> Mailbox<'a> {
    /// The messages, oldest first.
    pub closed spec fn messages_view(&self) -> Seq<Message<'a>> {
        self.messages@
    }

    /// Returns an empty mailbox.
    pub fn new() -> (r: Self)
        ensures
            r.messages_view() == Seq::<Message<'a>>::empty(),
    {
        Mailbox { messages: VecDeque::new() }
    }

    /// Adds a message to the back of the mailbox.
    pub fn send(&mut self, message: Message<'a>)
        ensures
            final(self).messages_view() == old(self).messages_view().push(message),
    {
        self.messages.push_back(message);
    }

    /// Takes the oldest message out of the mailbox.
    pub fn receive(&mut self) -> (r: Option<Message<'a>>)
        ensures
            old(self).messages_view().len() == 0 ==> r is None && final(self).messages_view() == old(
                self,
            ).messages_view(),
            old(self).messages_view().len() > 0 ==> r == Some(old(self).messages_view()[0])
                && final(self).messages_view() == old(self).messages_view().drop_first(),
    {
        self.messages.pop_front()
    }

    /// Returns `true` if the mailbox holds no messages.
    pub fn is_empty(&self) -> (r: bool)
        ensures
            r == (self.messages_view().len() == 0),
    {
        self.messages.len() == 0
    }
}

/// A regular process.
pub const NORMAL: u8 = 0b0;

/// The main process.
pub const MAIN: u8 = 0b1;

/// The process is performing a blocking operation.
pub const BLOCKING: u8 = 0b10;

/// The process is waiting for a message.
pub const WAITING_FOR_MESSAGE: u8 = 0b100;

/// The process is waiting for a future.
pub const WAITING_FOR_FUTURE: u8 = 0b1000;

/// The process is simply sleeping for a certain amount of time.
pub const SLEEPING: u8 = 0b1_0000;

/// The process was rescheduled after a timeout expired.
pub const TIMEOUT_EXPIRED: u8 = 0b10_0000;

/// The process is waiting for something, or suspended for a period of time.
pub const WAITING: u8 = 0b1_1000;

/// The status bits after setting (`enable`) or clearing the bits of `mask`.
pub open spec fn status_update(bits: u8, mask: u8, enable: bool) -> u8 {
    if enable {
        bits | mask
    } else {
        bits & !mask
    }
}

/// Holds when all bits of `mask` are set in `bits`.
pub open spec fn status_has(bits: u8, mask: u8) -> bool {
    bits & mask == mask
}

/// The status of a process, represented as a set of bits. Multiple bits may
/// be set in order to combine different statuses.
pub struct ProcessStatus {
    bits: u8,
}

impl ProcessStatus {
    /// The status bits.
    pub closed spec fn bits(&self) -> u8 {
        self.bits
    }

    /// Returns the status of a regular process: no bit set.
    pub fn new() -> (r: Self)
        ensures
            r.bits() == NORMAL,
    {
        Self { bits: NORMAL }
    }

    /// Returns the status bits.
    pub fn get_bits(&self) -> (r: u8)
        ensures
            r == self.bits(),
    {
        self.bits
    }

    /// Marks the process as the main process.
    pub fn set_main(&mut self)
        ensures
            final(self).bits() == status_update(old(self).bits(), MAIN, true),
    {
        self.update_bits(MAIN, true);
    }

    /// Returns `true` for the main process.
    pub fn is_main(&self) -> (r: bool)
        ensures
            r == status_has(self.bits(), MAIN),
    {
        self.bit_is_set(MAIN)
    }

    /// Marks or unmarks the process as performing a blocking operation.
    pub fn set_blocking(&mut self, enable: bool)
        ensures
            final(self).bits() == status_update(old(self).bits(), BLOCKING, enable),
    {
        self.update_bits(BLOCKING, enable);
    }

    /// Returns `true` if the process is performing a blocking operation.
    pub fn is_blocking(&self) -> (r: bool)
        ensures
            r == status_has(self.bits(), BLOCKING),
    {
        self.bit_is_set(BLOCKING)
    }

    /// Marks or unmarks the process as waiting for a message.
    pub fn set_waiting_for_message(&mut self, enable: bool)
        ensures
            final(self).bits() == status_update(old(self).bits(), WAITING_FOR_MESSAGE, enable),
    {
        self.update_bits(WAITING_FOR_MESSAGE, enable);
    }

    /// Returns `true` if the process waits for a message.
    pub fn is_waiting_for_message(&self) -> (r: bool)
        ensures
            r == status_has(self.bits(), WAITING_FOR_MESSAGE),
    {
        self.bit_is_set(WAITING_FOR_MESSAGE)
    }

    /// Marks or unmarks the process as waiting for a future.
    pub fn set_waiting_for_future(&mut self, enable: bool)
        ensures
            final(self).bits() == status_update(old(self).bits(), WAITING_FOR_FUTURE, enable),
    {
        self.update_bits(WAITING_FOR_FUTURE, enable);
    }

    /// Returns `true` if the process waits for a future.
    pub fn is_waiting_for_future(&self) -> (r: bool)
        ensures
            r == status_has(self.bits(), WAITING_FOR_FUTURE),
    {
        self.bit_is_set(WAITING_FOR_FUTURE)
    }

    /// Returns `true` if the process waits for a future or sleeps.
    pub fn is_waiting(&self) -> (r: bool)
        ensures
            r == (self.bits() & WAITING != 0),
    {
        (self.bits & WAITING) != 0
    }

    /// Clears the bits of waiting for a future and of sleeping.
    pub fn no_longer_waiting(&mut self)
        ensures
            final(self).bits() == status_update(old(self).bits(), WAITING, false),
    {
        self.update_bits(WAITING, false);
    }

    /// Marks or unmarks the process as rescheduled after its timeout expired.
    pub fn set_timeout_expired(&mut self, enable: bool)
        ensures
            final(self).bits() == status_update(old(self).bits(), TIMEOUT_EXPIRED, enable),
    {
        self.update_bits(TIMEOUT_EXPIRED, enable)
    }

    /// Marks or unmarks the process as sleeping.
    pub fn set_sleeping(&mut self, enable: bool)
        ensures
            final(self).bits() == status_update(old(self).bits(), SLEEPING, enable),
    {
        self.update_bits(SLEEPING, enable);
    }

    /// Returns `true` if the process was rescheduled after its timeout
    /// expired.
    pub fn timeout_expired(&self) -> (r: bool)
        ensures
            r == status_has(self.bits(), TIMEOUT_EXPIRED),
    {
        self.bit_is_set(TIMEOUT_EXPIRED)
    }

    fn update_bits(&mut self, mask: u8, enable: bool)
        ensures
            final(self).bits() == status_update(old(self).bits(), mask, enable),
    {
        self.bits = if enable {
            self.bits | mask
        } else {
            self.bits & !mask
        };
    }

    fn bit_is_set(&self, bit: u8) -> (r: bool)
        ensures
            r == status_has(self.bits(), bit),
    {
        self.bits & bit == bit
    }
}

/// Setting or clearing one status flag makes that flag read as set or
/// cleared, and leaves every flag with no bit in common unchanged.
pub proof fn lemma_status_flags(bits: u8, mask: u8, other: u8, enable: bool)
    requires
        mask & other == 0,
    ensures
        status_has(status_update(bits, mask, enable), mask) == (enable || mask == 0),
        status_has(status_update(bits, mask, enable), other) == status_has(bits, other),
        status_update(bits, mask, enable) & other == bits & other,
{
    assert(mask & other == 0 ==> (((bits | mask) & mask) == mask)) by (bit_vector);
    assert(mask & other == 0 ==> (((bits & !mask) & mask) == mask) == (mask == 0)) by (bit_vector);
    assert(mask & other == 0 ==> ((bits | mask) & other) == (bits & other)) by (bit_vector);
    assert(mask & other == 0 ==> ((bits & !mask) & other) == (bits & other)) by (bit_vector);
}

/// An enum describing what rights a thread was given when trying to reschedule
/// a process.
#[derive(PartialEq, Eq, Debug, Clone, Copy, Structural)]
pub enum RescheduleRights {
    /// The rescheduling rights were not obtained.
    Failed,
    /// The rescheduling rights were obtained.
    Acquired,
    /// The rescheduling rights were obtained, and the process was using a
    /// timeout.
    AcquiredWithTimeout,
}

impl RescheduleRights {
    /// Returns `true` unless the rights were not obtained.
    pub fn are_acquired(&self) -> (r: bool)
        ensures
            r == !(*self is Failed),
    {
        match self {
            RescheduleRights::Failed => false,
            _ => true,
        }
    }
}

/// An enum describing what to do when finishing a generator.
#[derive(PartialEq, Eq, Debug, Clone, Copy, Structural)]
pub enum Finished {
    /// There's more work to process, so the process needs to be rescheduled.
    Reschedule,
    /// There are no messages to process, but there are still clients that may
    /// produce new messages.
    WaitForMessage,
    /// There are no messages left, and no clients exist.
    Terminate,
}

/// The rights obtained when a value is written to a future the process waits
/// for, and the state of the process afterwards.
pub open spec fn reschedule_for_future<'a>(state: ProcessState<'a>) -> (RescheduleRights, ProcessState<'a>) {
    if !status_has(state.status_view().bits(), WAITING_FOR_FUTURE) {
        (RescheduleRights::Failed, state)
    } else {
        let after = state.with_status(status_update(state.status_view().bits(), WAITING_FOR_FUTURE, false));
        if state.timeout_view() is Some {
            (RescheduleRights::AcquiredWithTimeout, after.with_timeout(None))
        } else {
            (RescheduleRights::Acquired, after)
        }
    }
}

/// The shared state of a process: shared by the server and its clients.
pub struct ProcessState<'a> {
    /// The mailbox of this process.
    mailbox: Mailbox<'a>,
    /// The status of the process.
    status: ProcessStatus,
    /// The number of clients connected to this process.
    clients: usize,
    /// The timeout this process is suspended with, if any. If missing and the
    /// process is suspended, it is suspended indefinitely.
    timeout: Option<Arc<Timeout>>,
}

impl<'a> ProcessState<'a> {
    /// The mailbox.
    pub closed spec fn mailbox_view(&self) -> Seq<Message<'a>> {
        self.mailbox.messages_view()
    }

    /// The status.
    pub closed spec fn status_view(&self) -> ProcessStatus {
        self.status
    }

    /// The number of clients.
    pub closed spec fn clients_view(&self) -> usize {
        self.clients
    }

    /// The timeout the process is suspended with.
    pub closed spec fn timeout_view(&self) -> Option<Arc<Timeout>> {
        self.timeout
    }

    /// The same state with other status bits.
    pub closed spec fn with_status(self, bits: u8) -> ProcessState<'a> {
        ProcessState { status: ProcessStatus { bits }, ..self }
    }

    /// The same state with another timeout.
    pub closed spec fn with_timeout(self, timeout: Option<Arc<Timeout>>) -> ProcessState<'a> {
        ProcessState { timeout, ..self }
    }

    /// The parts of a state that `with_status` and `with_timeout` change.
    pub proof fn lemma_with(self, bits: u8, timeout: Option<Arc<Timeout>>)
        ensures
            self.with_status(bits).status_view().bits() == bits,
            self.with_status(bits).timeout_view() == self.timeout_view(),
            self.with_status(bits).mailbox_view() == self.mailbox_view(),
            self.with_status(bits).clients_view() == self.clients_view(),
            self.with_timeout(timeout).timeout_view() == timeout,
            self.with_timeout(timeout).status_view() == self.status_view(),
            self.with_timeout(timeout).mailbox_view() == self.mailbox_view(),
            self.with_timeout(timeout).clients_view() == self.clients_view(),
    {
    }

    /// Returns the state of a new process: no messages, no clients, a regular
    /// status, and no timeout.
    pub fn new() -> (r: Self)
        ensures
            r.mailbox_view() == Seq::<Message<'a>>::empty(),
            r.status_view().bits() == NORMAL,
            r.clients_view() == 0,
            r.timeout_view() is None,
    {
        Self { mailbox: Mailbox::new(), status: ProcessStatus::new(), clients: 0, timeout: None }
    }

    /// Returns `true` if the process is suspended with the given timeout (the
    /// same shared timeout, not merely an equal one).
    pub fn has_same_timeout(&self, timeout: &Arc<Timeout>) -> (r: bool)
        ensures
            self.timeout_view() is None ==> !r,
            r ==> **timeout == *self.timeout_view()->0,
    {
        match &self.timeout {
            Some(t) => same_allocation(t, timeout),
            None => false,
        }
    }

    /// Tries to acquire the rescheduling rights after a timeout expired.
    ///
    /// Only a waiting process can be rescheduled. A process waiting for a
    /// future is marked as having its timeout expired. The process no longer
    /// waits, and its timeout is removed.
    pub fn try_reschedule_after_timeout(&mut self) -> (r: RescheduleRights)
        ensures
            old(self).status_view().bits() & WAITING == 0 ==> {
                &&& r == RescheduleRights::Failed
                &&& *final(self) == *old(self)
            },
            old(self).status_view().bits() & WAITING != 0 ==> {
                let expired = status_update(
                    old(self).status_view().bits(),
                    TIMEOUT_EXPIRED,
                    status_has(old(self).status_view().bits(), WAITING_FOR_FUTURE),
                );
                &&& final(self).status_view().bits() == (if status_has(
                    old(self).status_view().bits(),
                    WAITING_FOR_FUTURE,
                ) {
                    status_update(expired, WAITING, false)
                } else {
                    status_update(old(self).status_view().bits(), WAITING, false)
                })
                &&& final(self).timeout_view() is None
                &&& r == (if old(self).timeout_view() is Some {
                    RescheduleRights::AcquiredWithTimeout
                } else {
                    RescheduleRights::Acquired
                })
                &&& final(self).mailbox_view() == old(self).mailbox_view()
                &&& final(self).clients_view() == old(self).clients_view()
            },
    {
        if !self.status.is_waiting() {
            return RescheduleRights::Failed;
        }
        if self.status.is_waiting_for_future() {
            self.status.set_timeout_expired(true);
        }
        self.status.no_longer_waiting();
        if self.timeout.take().is_some() {
            RescheduleRights::AcquiredWithTimeout
        } else {
            RescheduleRights::Acquired
        }
    }

    /// Marks the process as waiting for a future, with the given timeout.
    pub fn waiting_for_future(&mut self, timeout: Option<Arc<Timeout>>)
        ensures
            final(self).timeout_view() == timeout,
            final(self).status_view().bits() == status_update(old(self).status_view().bits(), WAITING_FOR_FUTURE, true),
            final(self).mailbox_view() == old(self).mailbox_view(),
            final(self).clients_view() == old(self).clients_view(),
    {
        self.timeout = timeout;
        self.status.set_waiting_for_future(true);
    }

    /// Tries to acquire the rescheduling rights for when a message is sent to
    /// the process: only a process waiting for a message can be rescheduled,
    /// and it then no longer waits for one.
    pub fn try_reschedule_for_message(&mut self) -> (r: RescheduleRights)
        ensures
            !status_has(old(self).status_view().bits(), WAITING_FOR_MESSAGE) ==> {
                &&& r == RescheduleRights::Failed
                &&& *final(self) == *old(self)
            },
            status_has(old(self).status_view().bits(), WAITING_FOR_MESSAGE) ==> {
                &&& r == RescheduleRights::Acquired
                &&& final(self).status_view().bits() == status_update(
                    old(self).status_view().bits(),
                    WAITING_FOR_MESSAGE,
                    false,
                )
                &&& final(self).timeout_view() == old(self).timeout_view()
                &&& final(self).mailbox_view() == old(self).mailbox_view()
                &&& final(self).clients_view() == old(self).clients_view()
            },
    {
        if !self.status.is_waiting_for_message() {
            return RescheduleRights::Failed;
        }
        self.status.set_waiting_for_message(false);
        RescheduleRights::Acquired
    }

    /// Tries to acquire the rescheduling rights for when a value is written
    /// to a future the process waits for.
    pub fn try_reschedule_for_future(&mut self) -> (r: RescheduleRights)
        ensures
            (r, *final(self)) == reschedule_for_future(*old(self)),
    {
        if !self.status.is_waiting_for_future() {
            return RescheduleRights::Failed;
        }
        self.status.set_waiting_for_future(false);
        if self.timeout.take().is_some() {
            RescheduleRights::AcquiredWithTimeout
        } else {
            RescheduleRights::Acquired
        }
    }

    /// Suspends the process with the given timeout: it sleeps until then.
    pub fn suspend(&mut self, timeout: Arc<Timeout>)
        ensures
            final(self).timeout_view() == Some(timeout),
            final(self).status_view().bits() == status_update(old(self).status_view().bits(), SLEEPING, true),
            final(self).mailbox_view() == old(self).mailbox_view(),
            final(self).clients_view() == old(self).clients_view(),
    {
        self.timeout = Some(timeout);
        self.status.set_sleeping(true);
    }

    /// Returns `true` if the timeout of the process expired, clearing the
    /// expiration status.
    pub fn timeout_expired(&mut self) -> (r: bool)
        ensures
            r == status_has(old(self).status_view().bits(), TIMEOUT_EXPIRED),
            final(self).status_view().bits() == (if r {
                status_update(old(self).status_view().bits(), TIMEOUT_EXPIRED, false)
            } else {
                old(self).status_view().bits()
            }),
            final(self).timeout_view() == old(self).timeout_view(),
            final(self).mailbox_view() == old(self).mailbox_view(),
            final(self).clients_view() == old(self).clients_view(),
    {
        if self.status.timeout_expired() {
            self.status.set_timeout_expired(false);
            true
        } else {
            false
        }
    }

    /// Adds a message to the mailbox and tries to acquire the rescheduling
    /// rights for it.
    pub fn send(&mut self, message: Message<'a>) -> (r: RescheduleRights)
        ensures
            final(self).mailbox_view() == old(self).mailbox_view().push(message),
            final(self).clients_view() == old(self).clients_view(),
            final(self).timeout_view() == old(self).timeout_view(),
            r == (if status_has(old(self).status_view().bits(), WAITING_FOR_MESSAGE) {
                RescheduleRights::Acquired
            } else {
                RescheduleRights::Failed
            }),
            final(self).status_view().bits() == (if r == RescheduleRights::Acquired {
                status_update(old(self).status_view().bits(), WAITING_FOR_MESSAGE, false)
            } else {
                old(self).status_view().bits()
            }),
    {
        self.mailbox.send(message);
        self.try_reschedule_for_message()
    }

    /// Decides what to do with the process when it finishes a generator:
    /// reschedule it while messages are left; otherwise wait for a message
    /// while clients may still send one; otherwise terminate.
    pub fn finish_generator(&mut self) -> (r: Finished)
        ensures
            old(self).mailbox_view().len() > 0 ==> r == Finished::Reschedule && *final(self) == *old(self),
            old(self).mailbox_view().len() == 0 && old(self).clients_view() > 0 ==> {
                &&& r == Finished::WaitForMessage
                &&& final(self).status_view().bits() == status_update(
                    old(self).status_view().bits(),
                    WAITING_FOR_MESSAGE,
                    true,
                )
                &&& final(self).mailbox_view() == old(self).mailbox_view()
                &&& final(self).clients_view() == old(self).clients_view()
                &&& final(self).timeout_view() == old(self).timeout_view()
            },
            old(self).mailbox_view().len() == 0 && old(self).clients_view() == 0 ==> r == Finished::Terminate
                && *final(self) == *old(self),
    {
        if !self.mailbox.is_empty() {
            return Finished::Reschedule;
        }
        if self.clients > 0 {
            self.status.set_waiting_for_message(true);
            return Finished::WaitForMessage;
        }
        Finished::Terminate
    }

    /// Takes the oldest message out of the mailbox; when there is none, the
    /// process waits for a message.
    pub fn receive(&mut self) -> (r: Option<Message<'a>>)
        ensures
            old(self).mailbox_view().len() > 0 ==> {
                &&& r == Some(old(self).mailbox_view()[0])
                &&& final(self).mailbox_view() == old(self).mailbox_view().drop_first()
                &&& final(self).status_view() == old(self).status_view()
            },
            old(self).mailbox_view().len() == 0 ==> {
                &&& r is None
                &&& final(self).mailbox_view() == old(self).mailbox_view()
                &&& final(self).status_view().bits() == status_update(
                    old(self).status_view().bits(),
                    WAITING_FOR_MESSAGE,
                    true,
                )
            },
            final(self).clients_view() == old(self).clients_view(),
            final(self).timeout_view() == old(self).timeout_view(),
    {
        match self.mailbox.receive() {
            Some(message) => Some(message),
            None => {
                self.status.set_waiting_for_message(true);
                None
            },
        }
    }

    /// Registers a new client of the process.
    pub fn add_client(&mut self)
        requires
            old(self).clients_view() < usize::MAX,
        ensures
            final(self).clients_view() == old(self).clients_view() + 1,
            final(self).mailbox_view() == old(self).mailbox_view(),
            final(self).status_view() == old(self).status_view(),
            final(self).timeout_view() == old(self).timeout_view(),
    {
        self.clients = self.clients + 1;
    }

    /// Unregisters a client of the process, as dropping a client does.
    pub fn remove_client(&mut self)
        requires
            old(self).clients_view() > 0,
        ensures
            final(self).clients_view() == old(self).clients_view() - 1,
            final(self).mailbox_view() == old(self).mailbox_view(),
            final(self).status_view() == old(self).status_view(),
            final(self).timeout_view() == old(self).timeout_view(),
    {
        self.clients = self.clients - 1;
    }

    /// Returns the number of clients of the process.
    pub fn clients(&self) -> (r: usize)
        ensures
            r == self.clients_view(),
    {
        self.clients
    }

    /// Returns the status of the process.
    pub fn status(&self) -> (r: &ProcessStatus)
        ensures
            *r == self.status_view(),
    {
        &self.status
    }

    /// Returns `true` if the process is suspended with a timeout.
    pub fn has_timeout(&self) -> (r: bool)
        ensures
            r == self.timeout_view() is Some,
    {
        self.timeout.is_some()
    }
}

/// The server side of a process.
pub struct Server<'a> {
    header: Header,
    /// The ID of the thread this server is pinned to.
    thread_id: Option<u16>,
    /// The currently running generator, if any; the generators it resumed
    /// from are its parents.
    generator: Option<Box<Generator<'a>>>,
    /// The internal state of the process.
    state: ProcessState<'a>,
    /// The fields of this process.
    fields: Vec<Pointer>,
}

impl<'a> Server<'a> {
    /// The class of the process.
    pub closed spec fn class_of(&self) -> ClassPointer {
        self.header.class
    }

    /// The number of references to the process.
    pub closed spec fn references(&self) -> u32 {
        self.header.references
    }

    /// The thread the process is pinned to.
    pub closed spec fn thread_view(&self) -> Option<u16> {
        self.thread_id
    }

    /// The running generator.
    pub closed spec fn generator_view(&self) -> Option<Box<Generator<'a>>> {
        self.generator
    }

    /// The state of the process.
    pub closed spec fn state_view(&self) -> ProcessState<'a> {
        self.state
    }

    /// The fields of the process.
    pub closed spec fn fields_view(&self) -> Seq<Pointer> {
        self.fields@
    }

    /// Returns a new process of class `class` (described by `description`),
    /// in memory allocated by `allocator`: it has a fresh state, no
    /// generator, is not pinned to a thread, and its fields are null.
    pub fn allocate<A: Allocator>(
        allocator: &mut A,
        blocks: &mut BlockAllocator,
        class: ClassPointer,
        description: &Class,
    ) -> (r: (ServerPointer, Server<'a>))
        requires
            old(allocator).allocator_wf(old(blocks)),
            old(blocks).wf(),
            old(blocks).num_blocks() < MAX_BLOCKS,
            description.size() <= crate::mem::allocator::MAX_ALLOCATION_SIZE,
        ensures
            final(allocator).allocator_wf(final(blocks)),
            final(blocks).wf(),
            final(blocks).num_blocks() <= old(blocks).num_blocks() + 1,
            r.1.class_of() == class,
            r.1.references() == 0,
            r.1.thread_view() is None,
            r.1.generator_view() is None,
            r.1.state_view().mailbox_view() == Seq::<Message<'a>>::empty(),
            r.1.state_view().status_view().bits() == NORMAL,
            r.1.state_view().clients_view() == 0,
            r.1.state_view().timeout_view() is None,
            r.1.fields_view().len() == description.field_names().len(),
            forall|i: int| 0 <= i < r.1.fields_view().len() ==> (#[trigger] r.1.fields_view()[i])@ == 0,
    {
        let ptr = allocator.allocate(blocks, description.instance_size() as u64);
        let count = description.fields().len();
        let mut fields: Vec<Pointer> = Vec::new();
        let mut i: usize = 0;
        while i < count
            invariant
                i <= count,
                fields@.len() == i,
                forall|k: int| 0 <= k < i ==> (#[trigger] fields@[k])@ == 0,
            decreases count - i,
        {
            fields.push(Pointer::new(0));
            i = i + 1;
        }
        let server = Server {
            header: Header { class, references: 0 },
            thread_id: None,
            generator: None,
            state: ProcessState::new(),
            fields,
        };
        (ServerPointer::new(ptr), server)
    }

    /// Returns the main process, of class `class` (described by
    /// `description`): it is pinned to the first thread, and runs `method`
    /// in a generator of class `generator_class`.
    pub fn main<A: Allocator>(
        allocator: &mut A,
        blocks: &mut BlockAllocator,
        class: ClassPointer,
        description: &Class,
        generator_class: ClassPointer,
        method: &'a Method,
    ) -> (r: (ServerPointer, Server<'a>))
        requires
            old(allocator).allocator_wf(old(blocks)),
            old(blocks).wf(),
            old(blocks).num_blocks() + 1 < MAX_BLOCKS,
            description.size() <= crate::mem::allocator::MAX_ALLOCATION_SIZE,
        ensures
            final(allocator).allocator_wf(final(blocks)),
            final(blocks).wf(),
            r.1.class_of() == class,
            r.1.thread_view() == Some(0u16),
            status_has(r.1.state_view().status_view().bits(), MAIN),
            r.1.state_view().mailbox_view() == Seq::<Message<'a>>::empty(),
            r.1.state_view().clients_view() == 0,
            r.1.generator_view() is Some,
            r.1.generator_view()->0.parent_view() is None,
            r.1.generator_view()->0.context_view().method == method,
            r.1.generator_view()->0.context_view().parent is None,
            r.1.fields_view().len() == description.field_names().len(),
    {
        let (pointer, mut server) = Self::allocate(allocator, blocks, class, description);
        server.set_main();
        server.pin_to_thread(0);
        server.schedule_module_method(allocator, blocks, generator_class, method);
        proof {
            let bits = server.state_view().status_view().bits();
            assert(status_has(bits, MAIN)) by (bit_vector)
                requires
                    bits == (NORMAL | MAIN),
            ;
        }
        (pointer, server)
    }

    /// Marks the process as the main process.
    pub fn set_main(&mut self)
        ensures
            final(self).state_view().status_view().bits() == status_update(
                old(self).state_view().status_view().bits(),
                MAIN,
                true,
            ),
            final(self).state_view().mailbox_view() == old(self).state_view().mailbox_view(),
            final(self).state_view().clients_view() == old(self).state_view().clients_view(),
            final(self).thread_view() == old(self).thread_view(),
            final(self).class_of() == old(self).class_of(),
            final(self).generator_view() == old(self).generator_view(),
            final(self).fields_view() == old(self).fields_view(),
    {
        self.state.status.set_main();
    }

    /// Returns `true` for the main process.
    pub fn is_main(&self) -> (r: bool)
        ensures
            r == status_has(self.state_view().status_view().bits(), MAIN),
    {
        self.state.status.is_main()
    }

    /// Returns the thread the process is pinned to, if any.
    pub fn thread_id(&self) -> (r: Option<u16>)
        ensures
            r == self.thread_view(),
    {
        self.thread_id
    }

    /// Pins the process to a thread.
    pub fn pin_to_thread(&mut self, thread: u16)
        ensures
            final(self).thread_view() == Some(thread),
            final(self).state_view() == old(self).state_view(),
            final(self).class_of() == old(self).class_of(),
            final(self).generator_view() == old(self).generator_view(),
            final(self).fields_view() == old(self).fields_view(),
    {
        self.thread_id = Some(thread);
    }

    /// Unpins the process from its thread.
    pub fn unpin_from_thread(&mut self)
        ensures
            final(self).thread_view() is None,
            final(self).state_view() == old(self).state_view(),
    {
        self.thread_id = None;
    }

    /// Marks the process as performing a blocking operation.
    pub fn set_blocking(&mut self)
        ensures
            final(self).state_view().status_view().bits() == status_update(
                old(self).state_view().status_view().bits(),
                BLOCKING,
                true,
            ),
    {
        self.state.status.set_blocking(true);
    }

    /// Marks the process as no longer performing a blocking operation.
    pub fn no_longer_blocking(&mut self)
        ensures
            final(self).state_view().status_view().bits() == status_update(
                old(self).state_view().status_view().bits(),
                BLOCKING,
                false,
            ),
    {
        self.state.status.set_blocking(false);
    }

    /// Returns `true` if the process is performing a blocking operation.
    pub fn is_blocking(&self) -> (r: bool)
        ensures
            r == status_has(self.state_view().status_view().bits(), BLOCKING),
    {
        self.state.status.is_blocking()
    }

    /// Makes `generator` the running generator; the generator that was
    /// running becomes its parent.
    pub fn resume_generator(&mut self, generator: Generator<'a>)
        ensures
            final(self).generator_view() is Some,
            final(self).generator_view()->0.parent_view() == old(self).generator_view(),
            final(self).generator_view()->0.context_view() == generator.context_view(),
            final(self).generator_view()->0.status_view() == generator.status_view(),
            final(self).generator_view()->0.result_view() == generator.result_view(),
            final(self).generator_view()->0.pointer_view() == generator.pointer_view(),
            final(self).state_view() == old(self).state_view(),
            final(self).thread_view() == old(self).thread_view(),
            final(self).class_of() == old(self).class_of(),
            final(self).fields_view() == old(self).fields_view(),
    {
        let mut generator = generator;
        generator.set_parent(self.generator.take());
        self.generator = Some(Box::new(generator));
    }

    /// Stops the running generator, resuming its parent. Returns `true` if
    /// there are no more generators to run.
    pub fn pop_generator(&mut self) -> (r: bool)
        ensures
            old(self).generator_view() is None ==> r && final(self).generator_view() is None,
            old(self).generator_view() is Some ==> {
                &&& final(self).generator_view() == old(self).generator_view()->0.parent_view()
                &&& r == final(self).generator_view() is None
            },
            final(self).state_view() == old(self).state_view(),
    {
        match self.generator.take() {
            Some(generator) => {
                let mut generator = generator;
                self.generator = generator.take_parent();
                self.generator.is_none()
            },
            None => true,
        }
    }

    /// Returns the running generator, if any.
    pub fn generator(&self) -> (r: Option<&Generator<'a>>)
        ensures
            match self.generator_view() {
                Some(g) => r == Some(&*g),
                None => r is None,
            },
    {
        match &self.generator {
            Some(g) => Some(&**g),
            None => None,
        }
    }

    /// Suspends this process for a period of time: it sleeps until the
    /// timeout expires.
    pub fn suspend(&mut self, timeout: Arc<Timeout>)
        ensures
            final(self).state_view().timeout_view() == Some(timeout),
            final(self).state_view().status_view().bits() == status_update(
                old(self).state_view().status_view().bits(),
                SLEEPING,
                true,
            ),
    {
        self.state.suspend(timeout);
    }

    /// Schedules a module method (without arguments) for execution, in a new
    /// generator that becomes the running one.
    pub fn schedule_module_method<A: Allocator>(
        &mut self,
        allocator: &mut A,
        blocks: &mut BlockAllocator,
        generator_class: ClassPointer,
        method: &'a Method,
    )
        requires
            old(allocator).allocator_wf(old(blocks)),
            old(blocks).wf(),
            old(blocks).num_blocks() < MAX_BLOCKS,
        ensures
            final(allocator).allocator_wf(final(blocks)),
            final(blocks).wf(),
            final(self).generator_view() is Some,
            final(self).generator_view()->0.parent_view() == old(self).generator_view(),
            final(self).generator_view()->0.context_view().method == method,
            final(self).generator_view()->0.context_view().parent is None,
            final(self).state_view() == old(self).state_view(),
            final(self).thread_view() == old(self).thread_view(),
            final(self).class_of() == old(self).class_of(),
            final(self).fields_view() == old(self).fields_view(),
    {
        let ctx = ExecutionContext::for_method(method);
        let generator = Generator::allocate(allocator, blocks, generator_class, ctx);
        self.resume_generator(generator);
    }

    /// Sends a message to run the method in slot `method_index` of the class
    /// of the process. The return value tells whether the sender obtained
    /// the rights to reschedule the process.
    pub fn send_message(
        &mut self,
        class: &'a Class,
        method_index: MethodIndex,
        arguments: &[Pointer],
    ) -> (r: RescheduleRights)
        requires
            class.wf(),
            method_index.0 < class.slots(),
            class.slot(method_index.0 as int) is Some,
            arguments@.len() <= 255,
        ensures
            final(self).state_view().mailbox_view().len() == old(self).state_view().mailbox_view().len() + 1,
            final(self).state_view().mailbox_view().drop_last() == old(self).state_view().mailbox_view(),
            final(self).state_view().mailbox_view().last().inner_view().method == class.slot(method_index.0 as int)->0,
            final(self).state_view().mailbox_view().last().inner_view().arguments@ == arguments@,
            r == (if status_has(old(self).state_view().status_view().bits(), WAITING_FOR_MESSAGE) {
                RescheduleRights::Acquired
            } else {
                RescheduleRights::Failed
            }),
    {
        let method = match class.get_method(method_index) {
            Some(m) => m,
            None => {
                assert(false);
                return RescheduleRights::Failed;
            },
        };
        let message = Message::new(method, arguments);
        let r = self.state.send(message);
        assert(self.state_view().mailbox_view().drop_last() =~= old(self).state_view().mailbox_view());
        r
    }

    /// Returns the generator to run next: the running generator if there is
    /// one, else a new generator for the oldest message, which becomes the
    /// running generator. Without either, `None` is returned and the process
    /// waits for a message.
    pub fn generator_to_run<A: Allocator>(
        &mut self,
        allocator: &mut A,
        blocks: &mut BlockAllocator,
        generator_class: ClassPointer,
    ) -> (r: Option<GeneratorPointer>)
        requires
            old(allocator).allocator_wf(old(blocks)),
            old(blocks).wf(),
            old(blocks).num_blocks() < MAX_BLOCKS,
            old(self).generator_view() is None && old(self).state_view().mailbox_view().len() > 0
                ==> old(self).state_view().mailbox_view()[0].inner_view().arguments@.len()
                <= old(self).state_view().mailbox_view()[0].inner_view().method.registers,
        ensures
            final(allocator).allocator_wf(final(blocks)),
            final(blocks).wf(),
            old(self).generator_view() is Some ==> {
                &&& r == Some(old(self).generator_view()->0.pointer_view())
                &&& *final(self) == *old(self)
            },
            old(self).generator_view() is None && old(self).state_view().mailbox_view().len() == 0 ==> {
                &&& r is None
                &&& final(self).generator_view() is None
                &&& final(self).state_view().status_view().bits() == status_update(
                    old(self).state_view().status_view().bits(),
                    WAITING_FOR_MESSAGE,
                    true,
                )
            },
            old(self).generator_view() is None && old(self).state_view().mailbox_view().len() > 0 ==> {
                let message = old(self).state_view().mailbox_view()[0].inner_view();
                &&& final(self).generator_view() is Some
                &&& r == Some(final(self).generator_view()->0.pointer_view())
                &&& final(self).generator_view()->0.context_view().method == message.method
                &&& final(self).generator_view()->0.context_view().registers_view().subrange(
                    0,
                    message.arguments@.len() as int,
                ) == message.arguments@
                &&& final(self).state_view().mailbox_view() == old(self).state_view().mailbox_view().drop_first()
            },
    {
        match &self.generator {
            Some(g) => {
                return Some(g.pointer());
            },
            None => {},
        }
        let message = match self.state.receive() {
            Some(message) => message,
            None => {
                return None;
            },
        };
        let inner = message.inner();
        let mut ctx = ExecutionContext::for_method(inner.method);
        ctx.set_registers(inner.arguments.as_slice());
        let generator = Generator::allocate(allocator, blocks, generator_class, ctx);
        let pointer = generator.pointer();
        self.resume_generator(generator);
        Some(pointer)
    }

    /// Decides what to do with the process when it finishes a generator.
    pub fn finish_generator(&mut self) -> (r: Finished)
        ensures
            old(self).state_view().mailbox_view().len() > 0 ==> r == Finished::Reschedule,
            old(self).state_view().mailbox_view().len() == 0 && old(self).state_view().clients_view() > 0
                ==> r == Finished::WaitForMessage,
            old(self).state_view().mailbox_view().len() == 0 && old(self).state_view().clients_view() == 0
                ==> r == Finished::Terminate && final(self).state_view() == old(self).state_view(),
            final(self).thread_view() == old(self).thread_view(),
            final(self).generator_view() == old(self).generator_view(),
            final(self).fields_view() == old(self).fields_view(),
            final(self).class_of() == old(self).class_of(),
    {
        self.state.finish_generator()
    }

    /// Assigns new values to all fields.
    pub fn set_values(&mut self, values: &[Pointer])
        requires
            values@.len() == old(self).fields_view().len(),
        ensures
            final(self).fields_view() == values@,
            final(self).state_view() == old(self).state_view(),
            final(self).thread_view() == old(self).thread_view(),
            final(self).generator_view() == old(self).generator_view(),
            final(self).class_of() == old(self).class_of(),
    {
        let mut i: usize = 0;
        while i < values.len()
            invariant
                i <= values@.len(),
                self.fields@.len() == values@.len(),
                forall|k: int| 0 <= k < i ==> self.fields@[k] == values@[k],
                self.state == old(self).state,
                self.thread_id == old(self).thread_id,
                self.generator == old(self).generator,
                self.header == old(self).header,
            decreases values@.len() - i,
        {
            self.fields.set(i, values[i]);
            i = i + 1;
        }
        assert(self.fields@ =~= values@);
    }

    /// Assigns a new value to a field.
    pub fn set(&mut self, index: FieldIndex, value: Pointer)
        requires
            index.0 < old(self).fields_view().len(),
        ensures
            final(self).fields_view() == old(self).fields_view().update(index.0 as int, value),
            final(self).state_view() == old(self).state_view(),
    {
        let i: usize = index.into();
        self.fields.set(i, value);
    }

    /// Returns the value of a field.
    pub fn get(&self, index: FieldIndex) -> (r: Pointer)
        requires
            index.0 < self.fields_view().len(),
        ensures
            r == self.fields_view()[index.0 as int],
    {
        let i: usize = index.into();
        self.fields[i]
    }

    /// Returns `true` if the timeout of this process expired, clearing the
    /// expiration status.
    pub fn timeout_expired(&mut self) -> (r: bool)
        ensures
            r == status_has(old(self).state_view().status_view().bits(), TIMEOUT_EXPIRED),
    {
        self.state.timeout_expired()
    }

    /// Returns the state of the process.
    pub fn state(&self) -> (r: &ProcessState<'a>)
        ensures
            *r == self.state_view(),
    {
        &self.state
    }

    /// Returns the state of the process, for changing it in place.
    pub fn state_mut(&mut self) -> (r: &mut ProcessState<'a>)
        ensures
            *r == old(self).state_view(),
            final(self).state_view() == *final(r),
            final(self).thread_view() == old(self).thread_view(),
            final(self).generator_view() == old(self).generator_view(),
            final(self).fields_view() == old(self).fields_view(),
            final(self).class_of() == old(self).class_of(),
    {
        &mut self.state
    }
}

/// A pointer to the server side of a process.
#[derive(Clone, Copy, PartialEq, Eq, Debug)]
pub struct ServerPointer(Pointer);

impl View for ServerPointer {
    type V = u64;

    closed spec fn view(&self) -> u64 {
        self.0@
    }
}

impl ServerPointer {
    /// Returns a new ServerPointer from a raw Pointer.
    pub fn new(pointer: Pointer) -> (r: Self)
        ensures
            r@ == pointer@,
    {
        ServerPointer(pointer)
    }

    /// Returns the unique identifier of the process: its address.
    pub fn identifier(self) -> (r: u64)
        ensures
            r == self@,
    {
        self.0.as_ptr()
    }

    /// Returns a regular Pointer to the process.
    pub fn as_pointer(self) -> (r: Pointer)
        ensures
            r@ == self@,
    {
        self.0
    }
}

/// The client side of a process.
pub struct Client {
    header: Header,
    /// The server we are a client of.
    server: ServerPointer,
}

impl Client {
    /// The server of the client.
    pub closed spec fn server_view(&self) -> ServerPointer {
        self.server
    }

    /// The class of the client.
    pub closed spec fn class_of(&self) -> ClassPointer {
        self.header.class
    }

    /// Returns a new client of `server`, whose state is `state`, in memory
    /// allocated by `allocator`. The server gains a client.
    pub fn allocate<A: Allocator>(
        allocator: &mut A,
        blocks: &mut BlockAllocator,
        class: ClassPointer,
        server: ServerPointer,
        state: &mut ProcessState<'_>,
    ) -> (r: (ClientPointer, Client))
        requires
            old(allocator).allocator_wf(old(blocks)),
            old(blocks).wf(),
            old(blocks).num_blocks() < MAX_BLOCKS,
            old(state).clients_view() < usize::MAX,
        ensures
            final(allocator).allocator_wf(final(blocks)),
            final(blocks).wf(),
            r.1.server_view() == server,
            r.1.class_of() == class,
            final(state).clients_view() == old(state).clients_view() + 1,
            final(state).mailbox_view() == old(state).mailbox_view(),
            final(state).status_view() == old(state).status_view(),
            final(state).timeout_view() == old(state).timeout_view(),
    {
        let ptr = allocator.allocate(blocks, CLIENT_SIZE as u64);
        state.add_client();
        (ClientPointer::new(ptr), Client { header: Header { class, references: 0 }, server })
    }

    /// Returns the pointer to the server this client is connected to.
    pub fn server(&self) -> (r: ServerPointer)
        ensures
            r == self.server_view(),
    {
        self.server
    }

    /// Drops a client of the server whose state is `state`: the server loses
    /// a client.
    pub fn drop(client: Client, state: &mut ProcessState<'_>)
        requires
            old(state).clients_view() > 0,
        ensures
            final(state).clients_view() == old(state).clients_view() - 1,
            final(state).mailbox_view() == old(state).mailbox_view(),
            final(state).status_view() == old(state).status_view(),
            final(state).timeout_view() == old(state).timeout_view(),
    {
        let _ = client;
        state.remove_client();
    }
}

/// A pointer to the client side of a process.
#[derive(Clone, Copy)]
pub struct ClientPointer(Pointer);

impl View for ClientPointer {
    type V = u64;

    closed spec fn view(&self) -> u64 {
        self.0@
    }
}

impl ClientPointer {
    /// Returns a new ClientPointer from a raw Pointer.
    pub fn new(pointer: Pointer) -> (r: Self)
        ensures
            r@ == pointer@,
    {
        ClientPointer(pointer)
    }

    /// Returns the ClientPointer as a regular Pointer.
    pub fn as_pointer(self) -> (r: Pointer)
        ensures
            r@ == self@,
    {
        self.0
    }
}

/// An enum describing the value produced by a future, and how it was produced.
#[derive(PartialEq, Eq, Debug, Clone, Copy)]
pub enum FutureResult {
    /// No values has been produced so far.
    Pending,
    /// The value was returned.
    Returned(Pointer),
    /// The value was thrown and should be thrown again.
    Thrown(Pointer),
}

/// An enum that describes what a producer should do after writing to a future.
#[derive(PartialEq, Eq, Debug, Clone, Copy)]
pub enum WriteResult {
    /// The future is disconnected, and the writer should discard the value it
    /// tried to write.
    Discard,
    /// A value was written, but no further action is needed.
    Continue,
    /// A value was written, and the given process needs to be rescheduled.
    Reschedule(ServerPointer),
    /// A value was written, the given process needs to be rescheduled, and a
    /// timeout needs to be invalidated.
    RescheduleWithTimeout(ServerPointer),
}

} // verus!
