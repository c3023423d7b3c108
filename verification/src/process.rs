//! The status of processes and the state they share for rescheduling.
use vstd::prelude::*;
use std::sync::Arc;
use crate::scheduler::timeouts::{same_allocation, Timeout};

verus! {

/// A regular process.
pub const NORMAL: u8 = 0b0;

/// The main process.
pub const MAIN: u8 = 0b1;

/// The process is performing a blocking operation.
pub const BLOCKING: u8 = 0b10;

/// The process is terminated.
pub const TERMINATED: u8 = 0b100;

/// The process is waiting for a message.
pub const WAITING_FOR_MESSAGE: u8 = 0b1000;

/// The process is waiting for a future.
pub const WAITING_FOR_FUTURE: u8 = 0b10000;

/// The process is simply sleeping for a certain amount of time.
pub const SLEEPING: u8 = 0b100000;

/// The process was rescheduled after a timeout expired.
pub const TIMEOUT_EXPIRED: u8 = 0b1000000;

/// The process is waiting for something, or suspended for a period of time.
pub const WAITING: u8 = 0b111000;

/// The status bits after setting (`enable`) or clearing the bits of `mask`.
pub open spec fn updated(bits: u8, mask: u8, enable: bool) -> u8 {
    if enable {
        bits | mask
    } else {
        bits & !mask
    }
}

/// Holds when all bits of `mask` are set in `bits`.
pub open spec fn flag_set(bits: u8, mask: u8) -> bool {
    bits & mask == mask
}

/// The status of a process, represented as a set of bits. Multiple bits may
/// be set in order to combine different statuses: for example, if the main
/// process is blocking it will set both bits.
pub struct ProcessStatus {
    bits: u8,
}

impl ProcessStatus {
    /// The status bits.
    pub closed spec fn bits(&self) -> u8 {
        self.bits
    }

    /// Returns the status of a regular process: no bit set.
    pub fn new() -> (r: Self)
        ensures
            r.bits() == NORMAL,
    {
        Self { bits: NORMAL }
    }

    /// Marks the process as the main process.
    pub fn set_main(&mut self)
        ensures
            final(self).bits() == updated(old(self).bits(), MAIN, true),
    {
        self.update_bits(MAIN, true);
    }

    /// Returns `true` for the main process.
    pub fn is_main(&self) -> (r: bool)
        ensures
            r == flag_set(self.bits(), MAIN),
    {
        self.bit_is_set(MAIN)
    }

    /// Marks or unmarks the process as performing a blocking operation.
    pub fn set_blocking(&mut self, enable: bool)
        ensures
            final(self).bits() == updated(old(self).bits(), BLOCKING, enable),
    {
        self.update_bits(BLOCKING, enable);
    }

    /// Returns `true` if the process is performing a blocking operation.
    pub fn is_blocking(&self) -> (r: bool)
        ensures
            r == flag_set(self.bits(), BLOCKING),
    {
        self.bit_is_set(BLOCKING)
    }

    /// Marks the process as terminated.
    pub fn set_terminated(&mut self)
        ensures
            final(self).bits() == updated(old(self).bits(), TERMINATED, true),
    {
        self.update_bits(TERMINATED, true);
    }

    /// Returns `true` if the process is terminated.
    pub fn is_terminated(&self) -> (r: bool)
        ensures
            r == flag_set(self.bits(), TERMINATED),
    {
        self.bit_is_set(TERMINATED)
    }

    /// Marks or unmarks the process as waiting for a message.
    pub fn set_waiting_for_message(&mut self, enable: bool)
        ensures
            final(self).bits() == updated(old(self).bits(), WAITING_FOR_MESSAGE, enable),
    {
        self.update_bits(WAITING_FOR_MESSAGE, enable);
    }

    /// Returns `true` if the process waits for a message.
    pub fn is_waiting_for_message(&self) -> (r: bool)
        ensures
            r == flag_set(self.bits(), WAITING_FOR_MESSAGE),
    {
        self.bit_is_set(WAITING_FOR_MESSAGE)
    }

    /// Marks or unmarks the process as waiting for a future.
    pub fn set_waiting_for_future(&mut self, enable: bool)
        ensures
            final(self).bits() == updated(old(self).bits(), WAITING_FOR_FUTURE, enable),
    {
        self.update_bits(WAITING_FOR_FUTURE, enable);
    }

    /// Returns `true` if the process waits for a future.
    pub fn is_waiting_for_future(&self) -> (r: bool)
        ensures
            r == flag_set(self.bits(), WAITING_FOR_FUTURE),
    {
        self.bit_is_set(WAITING_FOR_FUTURE)
    }

    /// Returns `true` if the process waits for a message or a future, or
    /// sleeps.
    pub fn is_waiting(&self) -> (r: bool)
        ensures
            r == (self.bits() & WAITING != 0),
    {
        (self.bits & WAITING) != 0
    }

    /// Clears the bits of waiting and of sleeping.
    pub fn no_longer_waiting(&mut self)
        ensures
            final(self).bits() == updated(old(self).bits(), WAITING, false),
    {
        self.update_bits(WAITING, false);
    }

    /// Marks or unmarks the process as rescheduled after its timeout expired.
    pub fn set_timeout_expired(&mut self, enable: bool)
        ensures
            final(self).bits() == updated(old(self).bits(), TIMEOUT_EXPIRED, enable),
    {
        self.update_bits(TIMEOUT_EXPIRED, enable)
    }

    /// Marks or unmarks the process as sleeping.
    pub fn set_sleeping(&mut self, enable: bool)
        ensures
            final(self).bits() == updated(old(self).bits(), SLEEPING, enable),
    {
        self.update_bits(SLEEPING, enable);
    }

    /// Returns `true` if the process sleeps.
    pub fn is_sleeping(&self) -> (r: bool)
        ensures
            r == flag_set(self.bits(), SLEEPING),
    {
        self.bit_is_set(SLEEPING)
    }

    /// Returns `true` if the process was rescheduled after its timeout
    /// expired.
    pub fn timeout_expired(&self) -> (r: bool)
        ensures
            r == flag_set(self.bits(), TIMEOUT_EXPIRED),
    {
        self.bit_is_set(TIMEOUT_EXPIRED)
    }

    fn update_bits(&mut self, mask: u8, enable: bool)
        ensures
            final(self).bits() == updated(old(self).bits(), mask, enable),
    {
        self.bits = if enable {
            self.bits | mask
        } else {
            self.bits & !mask
        };
    }

    fn bit_is_set(&self, bit: u8) -> (r: bool)
        ensures
            r == flag_set(self.bits(), bit),
    {
        self.bits & bit == bit
    }
}

/// Setting or clearing one status flag makes that flag read as set or
/// cleared, and leaves every flag with no bit in common unchanged.
pub proof fn lemma_flags(bits: u8, mask: u8, other: u8, enable: bool)
    requires
        mask & other == 0,
    ensures
        flag_set(updated(bits, mask, enable), mask) == (enable || mask == 0),
        flag_set(updated(bits, mask, enable), other) == flag_set(bits, other),
        updated(bits, mask, enable) & other == bits & other,
{
    assert(mask & other == 0 ==> (((bits | mask) & mask) == mask)) by (bit_vector);
    assert(mask & other == 0 ==> (((bits & !mask) & mask) == mask) == (mask == 0)) by (bit_vector);
    assert(mask & other == 0 ==> ((bits | mask) & other) == (bits & other)) by (bit_vector);
    assert(mask & other == 0 ==> ((bits & !mask) & other) == (bits & other)) by (bit_vector);
}

/// An enum describing what rights a thread was given when trying to reschedule
/// a process.
#[derive(PartialEq, Eq, Debug, Clone, Copy, Structural)]
pub enum RescheduleRights {
    /// The rescheduling rights were not obtained.
    Failed,
    /// The rescheduling rights were obtained.
    Acquired,
    /// The rescheduling rights were obtained, and the process was using a
    /// timeout.
    AcquiredWithTimeout,
}

impl RescheduleRights {
    /// Returns `true` unless the rights were not obtained.
    pub fn are_acquired(&self) -> (r: bool)
        ensures
            r == !(*self is Failed),
    {
        match self {
            RescheduleRights::Failed => false,
            _ => true,
        }
    }
}

/// The state of a process that other threads use to reschedule it.
pub struct SharedData {
    /// The status of the process.
    status: ProcessStatus,
    /// The timeout this process is suspended with, if any. If missing and the
    /// process is suspended, it is suspended indefinitely.
    timeout: Option<Arc<Timeout>>,
}

impl SharedData {
    /// The status bits of the process.
    pub closed spec fn bits(&self) -> u8 {
        self.status.bits
    }

    /// The timeout the process is suspended with.
    pub closed spec fn timeout_view(&self) -> Option<Arc<Timeout>> {
        self.timeout
    }

    /// Returns the state of a regular process without a timeout.
    pub fn new() -> (r: Self)
        ensures
            r.bits() == NORMAL,
            r.timeout_view() is None,
    {
        SharedData { status: ProcessStatus::new(), timeout: None }
    }

    /// Returns the status of the process.
    pub fn status(&self) -> (r: &ProcessStatus)
        ensures
            r.bits() == self.bits(),
    {
        &self.status
    }

    /// Returns `true` if the process is suspended with the given timeout (the
    /// same shared timeout, not merely an equal one).
    pub fn has_same_timeout(&self, timeout: &Arc<Timeout>) -> (r: bool)
        ensures
            self.timeout_view() is None ==> !r,
            r ==> **timeout == *self.timeout_view()->0,
    {
        match &self.timeout {
            Some(t) => same_allocation(t, timeout),
            None => false,
        }
    }

    /// Returns `true` if the timeout of this process expired, clearing the
    /// expiration status.
    pub fn timeout_expired(&mut self) -> (r: bool)
        ensures
            r == flag_set(old(self).bits(), TIMEOUT_EXPIRED),
            final(self).bits() == (if r {
                updated(old(self).bits(), TIMEOUT_EXPIRED, false)
            } else {
                old(self).bits()
            }),
            final(self).timeout_view() == old(self).timeout_view(),
    {
        if self.status.timeout_expired() {
            self.status.set_timeout_expired(false);
            true
        } else {
            false
        }
    }

    /// Parks the process until a future it waits for is written to, or the
    /// timeout expires.
    pub fn park_for_future(&mut self, timeout: Option<Arc<Timeout>>)
        ensures
            final(self).timeout_view() == timeout,
            final(self).bits() == updated(old(self).bits(), WAITING_FOR_FUTURE, true),
    {
        self.timeout = timeout;
        self.status.set_waiting_for_future(true);
    }

    /// Parks the process until a message arrives.
    pub fn park_for_message(&mut self)
        ensures
            final(self).timeout_view() == old(self).timeout_view(),
            final(self).bits() == updated(old(self).bits(), WAITING_FOR_MESSAGE, true),
    {
        self.status.set_waiting_for_message(true);
    }

    /// Parks the process until the timeout expires.
    pub fn park(&mut self, timeout: Arc<Timeout>)
        ensures
            final(self).timeout_view() == Some(timeout),
            final(self).bits() == updated(old(self).bits(), SLEEPING, true),
    {
        self.timeout = Some(timeout);
        self.status.set_sleeping(true);
    }

    /// Tries to acquire the rescheduling rights after a timeout expired.
    ///
    /// Only a waiting process can be rescheduled. A process that waited for
    /// something (rather than sleeping) is marked as having its timeout
    /// expired. The process no longer waits, and its timeout is removed.
    pub fn try_reschedule_after_timeout(&mut self) -> (r: RescheduleRights)
        ensures
            old(self).bits() & WAITING == 0 ==> r == RescheduleRights::Failed && final(self).bits()
                == old(self).bits() && final(self).timeout_view() == old(self).timeout_view(),
            old(self).bits() & WAITING != 0 ==> {
                &&& final(self).bits() == (if flag_set(old(self).bits(), SLEEPING) {
                    updated(old(self).bits(), WAITING, false)
                } else {
                    updated(updated(old(self).bits(), TIMEOUT_EXPIRED, true), WAITING, false)
                })
                &&& final(self).timeout_view() is None
                &&& r == (if old(self).timeout_view() is Some {
                    RescheduleRights::AcquiredWithTimeout
                } else {
                    RescheduleRights::Acquired
                })
            },
    {
        if !self.status.is_waiting() {
            return RescheduleRights::Failed;
        }
        if !self.status.is_sleeping() {
            self.status.set_timeout_expired(true);
        }
        self.status.no_longer_waiting();
        if self.timeout.take().is_some() {
            RescheduleRights::AcquiredWithTimeout
        } else {
            RescheduleRights::Acquired
        }
    }

    /// Tries to acquire the rescheduling rights for when a message is sent to
    /// the process.
    pub fn try_reschedule_for_message(&mut self) -> (r: RescheduleRights)
        ensures
            r == (if flag_set(old(self).bits(), WAITING_FOR_MESSAGE) {
                RescheduleRights::Acquired
            } else {
                RescheduleRights::Failed
            }),
            final(self).bits() == (if flag_set(old(self).bits(), WAITING_FOR_MESSAGE) {
                updated(old(self).bits(), WAITING_FOR_MESSAGE, false)
            } else {
                old(self).bits()
            }),
            final(self).timeout_view() == old(self).timeout_view(),
    {
        if !self.status.is_waiting_for_message() {
            return RescheduleRights::Failed;
        }
        self.status.set_waiting_for_message(false);
        RescheduleRights::Acquired
    }

    /// Tries to acquire the rescheduling rights for when a value is written
    /// to a future the process waits for.
    pub fn try_reschedule_for_future(&mut self) -> (r: RescheduleRights)
        ensures
            !flag_set(old(self).bits(), WAITING_FOR_FUTURE) ==> r == RescheduleRights::Failed && final(self).bits()
                == old(self).bits() && final(self).timeout_view() == old(self).timeout_view(),
            flag_set(old(self).bits(), WAITING_FOR_FUTURE) ==> {
                &&& final(self).bits() == updated(old(self).bits(), WAITING_FOR_FUTURE, false)
                &&& final(self).timeout_view() is None
                &&& r == (if old(self).timeout_view() is Some {
                    RescheduleRights::AcquiredWithTimeout
                } else {
                    RescheduleRights::Acquired
                })
            },
    {
        if !self.status.is_waiting_for_future() {
            return RescheduleRights::Failed;
        }
        self.status.set_waiting_for_future(false);
        if self.timeout.take().is_some() {
            RescheduleRights::AcquiredWithTimeout
        } else {
            RescheduleRights::Acquired
        }
    }
}

} // verus!
