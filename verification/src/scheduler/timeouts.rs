//! Processes suspended with a timeout.
use vstd::prelude::*;
use std::sync::Arc;
use std::time::Instant;
use crate::mem::process::{
    ProcessState,
    ServerPointer,
    TIMEOUT_EXPIRED,
    WAITING,
    WAITING_FOR_FUTURE,
    status_has,
    status_update,
};

verus! {

/// A point in time of the monotonic clock.
#[verifier::external_type_specification]
#[verifier::external_body]
pub struct ExInstant(std::time::Instant);

/// Reads the monotonic clock (`Instant::now`). Nothing is stated of the
/// result: it depends on the time of the call.
#[verifier::external_body]
fn now() -> Instant {
    Instant::now()
}

/// The nanoseconds elapsed since `origin` (`Instant::elapsed`, converted with
/// `Duration::as_nanos`). Nothing is stated of the result: it depends on the
/// time of the call.
#[verifier::external_body]
fn elapsed_nanos(origin: &Instant) -> u128 {
    origin.elapsed().as_nanos()
}

/// Whether two shared timeouts are the same allocation (`Arc::ptr_eq`). When
/// they are, they hold the same timeout.
#[verifier::external_body]
pub(crate) fn same_allocation(a: &Arc<Timeout>, b: &Arc<Timeout>) -> (r: bool)
    ensures
        r ==> **a == **b,
{
    Arc::ptr_eq(a, b)
}

/// The monotonic clock that timeouts are measured on: it reads the
/// nanoseconds elapsed since the clock was made.
pub struct Clock {
    origin: Instant,
}

impl Clock {
    /// Returns a clock that starts now.
    pub fn new() -> Self {
        Clock { origin: now() }
    }

    /// Returns the nanoseconds elapsed since the clock was made.
    pub fn now(&self) -> u128 {
        elapsed_nanos(&self.origin)
    }
}

/// `a + b`, or the largest value when the sum does not fit.
pub open spec fn saturated_sum(a: u128, b: u128) -> u128 {
    if a + b > u128::MAX {
        u128::MAX
    } else {
        (a + b) as u128
    }
}

/// The time left at time `now` until `deadline`, or `None` once it is
/// reached.
pub open spec fn time_left(deadline: u128, now: u128) -> Option<u128> {
    if now >= deadline {
        None
    } else {
        Some((deadline - now) as u128)
    }
}

/// A process that should be resumed after a certain point in time.
pub struct Timeout {
    /// The time on the clock (in nanoseconds) after which the timeout
    /// expires.
    resume_after: u128,
}

impl Timeout {
    /// Returns a timeout that expires `suspend_for` nanoseconds after the
    /// time `now`. A deadline beyond the largest time is the largest time.
    pub fn at(now: u128, suspend_for: u128) -> (r: Self)
        ensures
            r.deadline() == saturated_sum(now, suspend_for),
    {
        Timeout { resume_after: now.saturating_add(suspend_for) }
    }

    /// Returns a timeout that expires `suspend_for` nanoseconds from the
    /// current time of `clock`. As the clock reads at least zero, the
    /// deadline is at least `suspend_for`.
    pub fn new(clock: &Clock, suspend_for: u128) -> (r: Self)
        ensures
            exists|now: u128| r.deadline() == saturated_sum(now, suspend_for),
            r.deadline() >= suspend_for,
    {
        let now = clock.now();
        Self::at(now, suspend_for)
    }

    /// Returns a shared timeout that expires `suspend_for` nanoseconds from
    /// the current time of `clock`.
    pub fn with_rc(clock: &Clock, suspend_for: u128) -> (r: Arc<Self>)
        ensures
            exists|now: u128| r.deadline() == saturated_sum(now, suspend_for),
            r.deadline() >= suspend_for,
    {
        Arc::new(Self::new(clock, suspend_for))
    }

    /// The time on the clock (in nanoseconds) after which the timeout
    /// expires.
    pub closed spec fn deadline(&self) -> u128 {
        self.resume_after
    }

    /// Returns the time on the clock (in nanoseconds) after which the
    /// timeout expires.
    pub fn resume_after(&self) -> (r: u128)
        ensures
            r == self.deadline(),
    {
        self.resume_after
    }

    /// Returns the time left (in nanoseconds) at the time `now` until the
    /// timeout expires, or `None` if it has expired.
    pub fn remaining_at(&self, now: u128) -> (r: Option<u128>)
        ensures
            r == time_left(self.deadline(), now),
    {
        if now >= self.resume_after {
            None
        } else {
            Some(self.resume_after - now)
        }
    }

    /// Returns the time left (in nanoseconds) until the timeout expires, as
    /// the clock reads now, or `None` if it has expired. The time left is
    /// never more than the deadline.
    pub fn remaining_time(&self, clock: &Clock) -> (r: Option<u128>)
        ensures
            exists|now: u128| r == time_left(self.deadline(), now),
            r matches Some(left) ==> 0 < left <= self.deadline(),
    {
        let now = clock.now();
        self.remaining_at(now)
    }
}

/// A timeout and the process suspended with it.
pub struct TimeoutEntry {
    timeout: Arc<Timeout>,
    process: ServerPointer,
}

impl TimeoutEntry {
    /// The timeout.
    pub closed spec fn timeout_view(&self) -> Arc<Timeout> {
        self.timeout
    }

    /// The process.
    pub closed spec fn process_view(&self) -> ServerPointer {
        self.process
    }

    /// Returns an entry for a process suspended with a timeout.
    pub fn new(process: ServerPointer, timeout: Arc<Timeout>) -> (r: Self)
        ensures
            r.process_view() == process,
            r.timeout_view() == timeout,
    {
        TimeoutEntry { timeout, process }
    }

    /// Returns the process.
    pub fn process(&self) -> (r: ServerPointer)
        ensures
            r == self.process_view(),
    {
        self.process
    }

    /// Returns the timeout.
    pub fn timeout(&self) -> (r: &Arc<Timeout>)
        ensures
            *r == self.timeout_view(),
    {
        &self.timeout
    }
}

/// The entries of `entries` whose flag in `valid` is set, in order.
pub open spec fn kept(entries: Seq<TimeoutEntry>, valid: Seq<bool>) -> Seq<TimeoutEntry>
    decreases entries.len(),
{
    if entries.len() == 0 || valid.len() == 0 {
        Seq::empty()
    } else if valid.last() {
        kept(entries.drop_last(), valid.drop_last()).push(entries.last())
    } else {
        kept(entries.drop_last(), valid.drop_last())
    }
}

/// The deadline of the timeout of an entry.
pub open spec fn entry_deadline(entry: TimeoutEntry) -> u128 {
    entry.timeout_view().deadline()
}

/// Holds when entry `i` of `entries` has the earliest deadline, and no entry
/// before it has one as early.
pub open spec fn earliest(entries: Seq<TimeoutEntry>, i: int) -> bool {
    &&& 0 <= i < entries.len()
    &&& forall|j: int|
        0 <= j < entries.len() ==> entry_deadline(entries[i]) <= entry_deadline(#[trigger] entries[j])
    &&& forall|j: int| 0 <= j < i ==> entry_deadline(entries[i]) < entry_deadline(#[trigger] entries[j])
}

/// Holds when a process with the address of `process` is among `processes`,
/// at an index whose state in `states` no longer has a timeout.
pub open spec fn rescheduled(processes: Seq<ServerPointer>, states: Seq<ProcessState>, process: ServerPointer) -> bool {
    exists|k: int|
        0 <= k < processes.len() && processes[k]@ == process@ && (#[trigger] states[k]).timeout_view() is None
}

/// Holds when a process with the address of `process` is among `processes`.
pub open spec fn listed(processes: Seq<ServerPointer>, process: ServerPointer) -> bool {
    exists|j: int| 0 <= j < processes.len() && (#[trigger] processes[j])@ == process@
}

/// The processes that are waiting with a timeout.
pub struct Timeouts {
    /// The timeouts of all processes.
    timeouts: Vec<TimeoutEntry>,
}

impl Timeouts {
    /// The entries.
    pub closed spec fn entries_view(&self) -> Seq<TimeoutEntry> {
        self.timeouts@
    }

    /// Returns an empty collection.
    pub fn new() -> (r: Self)
        ensures
            r.entries_view() == Seq::<TimeoutEntry>::empty(),
    {
        Timeouts { timeouts: Vec::new() }
    }

    /// Adds a process suspended with a timeout.
    pub fn insert(&mut self, process: ServerPointer, timeout: Arc<Timeout>)
        ensures
            final(self).entries_view().len() == old(self).entries_view().len() + 1,
            final(self).entries_view().drop_last() == old(self).entries_view(),
            final(self).entries_view().last().process_view() == process,
            final(self).entries_view().last().timeout_view() == timeout,
    {
        self.timeouts.push(TimeoutEntry::new(process, timeout));
        assert(self.entries_view().drop_last() =~= old(self).entries_view());
    }

    /// Returns the number of entries.
    pub fn len(&self) -> (r: usize)
        ensures
            r == self.entries_view().len(),
    {
        self.timeouts.len()
    }

    /// Returns the entries.
    pub fn entries(&self) -> (r: &Vec<TimeoutEntry>)
        ensures
            r@ == self.entries_view(),
    {
        &self.timeouts
    }

    /// Removes the entries that are no longer valid: entry `i` stays when
    /// `valid[i]` is set, which is when its process is still suspended with
    /// that very timeout. Returns the number of entries removed.
    pub fn remove_invalid_entries(&mut self, valid: &[bool]) -> (r: usize)
        requires
            valid@.len() == old(self).entries_view().len(),
        ensures
            final(self).entries_view() == kept(old(self).entries_view(), valid@),
            r == old(self).entries_view().len() - final(self).entries_view().len(),
    {
        let mut kept_entries: Vec<TimeoutEntry> = Vec::new();
        let mut removed: usize = 0;
        let mut index: usize = 0;
        let ghost old_entries = self.timeouts@;
        let mut old_timeouts: Vec<TimeoutEntry> = Vec::new();
        std::mem::swap(&mut old_timeouts, &mut self.timeouts);
        let mut rest: Vec<TimeoutEntry> = Vec::new();
        // Reverse so that entries can be taken from the back in order.
        while old_timeouts.len() > 0
            invariant
                old_timeouts@.len() + rest@.len() == old_entries.len(),
                forall|k: int| 0 <= k < old_timeouts@.len() ==> old_timeouts@[k] == old_entries[k],
                forall|k: int| 0 <= k < rest@.len() ==> rest@[k] == old_entries[old_entries.len() - 1 - k],
            decreases old_timeouts@.len(),
        {
            let entry = old_timeouts.pop().unwrap();
            rest.push(entry);
        }
        assert(kept(old_entries.subrange(0, 0), valid@.subrange(0, 0)) =~= Seq::<TimeoutEntry>::empty());
        while rest.len() > 0
            invariant
                index + rest@.len() == old_entries.len(),
                valid@.len() == old_entries.len(),
                forall|k: int| 0 <= k < rest@.len() ==> rest@[k] == old_entries[old_entries.len() - 1 - k],
                kept_entries@ == kept(old_entries.subrange(0, index as int), valid@.subrange(0, index as int)),
                removed == index - kept_entries@.len(),
                kept_entries@.len() <= index,
            decreases rest@.len(),
        {
            let entry = rest.pop().unwrap();
            proof {
                let e = old_entries.subrange(0, index + 1);
                let v = valid@.subrange(0, index + 1);
                assert(e.drop_last() =~= old_entries.subrange(0, index as int));
                assert(v.drop_last() =~= valid@.subrange(0, index as int));
                assert(e.last() == entry);
            }
            if valid[index] {
                kept_entries.push(entry);
            } else {
                removed = removed + 1;
            }
            index = index + 1;
        }
        assert(old_entries.subrange(0, index as int) =~= old_entries);
        assert(valid@.subrange(0, index as int) =~= valid@);
        self.timeouts = kept_entries;
        removed
    }

    /// Takes the entry with the earliest timeout out of the collection: of
    /// the entries with the earliest deadline, the first one.
    pub fn pop_earliest(&mut self) -> (r: Option<TimeoutEntry>)
        ensures
            old(self).entries_view().len() == 0 ==> r is None && final(self).entries_view() == old(
                self,
            ).entries_view(),
            old(self).entries_view().len() > 0 ==> exists|i: int|
                earliest(old(self).entries_view(), i) && r == Some(#[trigger] old(self).entries_view()[i])
                    && final(self).entries_view() == old(self).entries_view().remove(i),
    {
        if self.timeouts.len() == 0 {
            return None;
        }
        let mut best: usize = 0;
        let mut i: usize = 1;
        while i < self.timeouts.len()
            invariant
                best < i <= self.timeouts@.len(),
                self.timeouts@ == old(self).timeouts@,
                forall|j: int|
                    0 <= j < i ==> entry_deadline(self.timeouts@[best as int]) <= entry_deadline(
                        #[trigger] self.timeouts@[j],
                    ),
                forall|j: int|
                    0 <= j < best ==> entry_deadline(self.timeouts@[best as int]) < entry_deadline(
                        #[trigger] self.timeouts@[j],
                    ),
            decreases self.timeouts@.len() - i,
        {
            if self.timeouts[i].timeout.resume_after() < self.timeouts[best].timeout.resume_after() {
                best = i;
            }
            i = i + 1;
        }
        let ghost before = self.timeouts@;
        let entry = self.timeouts.remove(best);
        assert(earliest(before, best as int));
        Some(entry)
    }

    /// Handles the entry with the earliest timeout, taken out by
    /// `pop_earliest`, for the process whose state is `state`.
    ///
    /// An entry whose process is no longer suspended with its timeout is
    /// dropped. An entry whose timeout has not expired is put back, and the
    /// time left is returned: later timeouts have not expired either. The
    /// process of an expired entry is added to `reschedule` when the
    /// rescheduling rights are acquired.
    ///
    /// Whether the process is still suspended with the entry's timeout (the
    /// same shared timeout) and how much time is left are decided by outside
    /// calls; `reschedule_checked` states what follows from each outcome.
    pub fn reschedule_entry(
        &mut self,
        clock: &Clock,
        entry: TimeoutEntry,
        state: &mut ProcessState<'_>,
        reschedule: &mut Vec<ServerPointer>,
    ) -> (r: Option<u128>)
        ensures
            old(state).timeout_view() is None ==> {
                &&& r is None
                &&& final(self).entries_view() == old(self).entries_view()
                &&& *final(state) == *old(state)
                &&& final(reschedule)@ == old(reschedule)@
            },
            r is Some ==> {
                &&& final(self).entries_view() == old(self).entries_view().push(entry)
                &&& *final(state) == *old(state)
                &&& final(reschedule)@ == old(reschedule)@
            },
            r matches Some(left) ==> 0 < left <= entry_deadline(entry),
            r is None ==> final(self).entries_view() == old(self).entries_view(),
            r is None && final(reschedule)@ != old(reschedule)@ ==> {
                &&& final(reschedule)@ == old(reschedule)@.push(entry.process_view())
                &&& old(state).status_view().bits() & WAITING != 0
                &&& final(state).timeout_view() is None
            },
            final(state).timeout_view() != old(state).timeout_view() ==> final(reschedule)@ == old(
                reschedule,
            )@.push(entry.process_view()),
    {
        let suspended = state.has_same_timeout(&entry.timeout);
        let remaining = if suspended {
            entry.timeout.remaining_time(clock)
        } else {
            None
        };
        self.reschedule_checked(entry, state, reschedule, suspended, remaining)
    }

    /// Handles the entry with the earliest timeout for the process whose
    /// state is `state`, given whether the process is still suspended with
    /// the entry's timeout (`suspended`) and the time left until the timeout
    /// expires (`remaining`, `None` once it expired).
    ///
    /// An entry whose process is no longer suspended with it is dropped. An
    /// entry whose timeout has not expired is put back, and the time left is
    /// returned. For an expired entry, the process tries to acquire the
    /// rescheduling rights (see `ProcessState::try_reschedule_after_timeout`),
    /// which a waiting process gives: it is then added to `reschedule`.
    pub fn reschedule_checked(
        &mut self,
        entry: TimeoutEntry,
        state: &mut ProcessState<'_>,
        reschedule: &mut Vec<ServerPointer>,
        suspended: bool,
        remaining: Option<u128>,
    ) -> (r: Option<u128>)
        ensures
            !suspended ==> {
                &&& r is None
                &&& final(self).entries_view() == old(self).entries_view()
                &&& *final(state) == *old(state)
                &&& final(reschedule)@ == old(reschedule)@
            },
            suspended && remaining is Some ==> {
                &&& r == remaining
                &&& final(self).entries_view() == old(self).entries_view().push(entry)
                &&& *final(state) == *old(state)
                &&& final(reschedule)@ == old(reschedule)@
            },
            suspended && remaining is None ==> {
                &&& r is None
                &&& final(self).entries_view() == old(self).entries_view()
                &&& old(state).status_view().bits() & WAITING == 0 ==> {
                    &&& *final(state) == *old(state)
                    &&& final(reschedule)@ == old(reschedule)@
                }
                &&& old(state).status_view().bits() & WAITING != 0 ==> {
                    &&& final(reschedule)@ == old(reschedule)@.push(entry.process_view())
                    &&& final(state).timeout_view() is None
                    &&& final(state).status_view().bits() == (if status_has(
                        old(state).status_view().bits(),
                        WAITING_FOR_FUTURE,
                    ) {
                        status_update(
                            status_update(old(state).status_view().bits(), TIMEOUT_EXPIRED, true),
                            WAITING,
                            false,
                        )
                    } else {
                        status_update(old(state).status_view().bits(), WAITING, false)
                    })
                    &&& final(state).mailbox_view() == old(state).mailbox_view()
                    &&& final(state).clients_view() == old(state).clients_view()
                }
            },
    {
        if !suspended {
            return None;
        }
        match remaining {
            Some(duration) => {
                self.timeouts.push(entry);
                return Some(duration);
            },
            None => {},
        }
        let rights = state.try_reschedule_after_timeout();
        if rights.are_acquired() {
            reschedule.push(entry.process);
        }
        None
    }

    /// Reschedules the processes whose timeouts expired, from the earliest
    /// timeout on, until a timeout that has not expired: that one stays, and
    /// the time left until it expires is returned along with the processes
    /// to reschedule.
    ///
    /// The state of process `processes[i]` is `states[i]` (the last such
    /// index, if a process is listed twice). An entry whose process is not
    /// among them, or is no longer suspended with the entry's timeout, is
    /// dropped. A returned process had its rescheduling rights acquired: its
    /// state no longer has a timeout. The time returned belongs to the
    /// earliest timeout left, which is the entry put back last.
    pub fn processes_to_reschedule<'a>(
        &mut self,
        clock: &Clock,
        processes: &Vec<ServerPointer>,
        states: &mut Vec<ProcessState<'a>>,
    ) -> (r: (Vec<ServerPointer>, Option<u128>))
        requires
            old(states)@.len() == processes@.len(),
        ensures
            final(states)@.len() == old(states)@.len(),
            final(self).entries_view().len() <= old(self).entries_view().len(),
            forall|i: int| 0 <= i < r.0@.len() ==> rescheduled(processes@, final(states)@, #[trigger] r.0@[i]),
            forall|k: int|
                0 <= k < processes@.len() && (#[trigger] old(states)@[k]).timeout_view() is Some
                    && final(states)@[k].timeout_view() is None ==> listed(r.0@, processes@[k]),
            r.1 is None ==> final(self).entries_view().len() == 0,
            r.1 matches Some(left) ==> {
                let e = final(self).entries_view();
                &&& e.len() > 0
                &&& 0 < left <= entry_deadline(e.last())
                &&& forall|j: int| 0 <= j < e.len() ==> entry_deadline(e.last()) <= entry_deadline(#[trigger] e[j])
            },
    {
        let mut reschedule: Vec<ServerPointer> = Vec::new();
        loop
            invariant
                states@.len() == processes@.len(),
                old(states)@.len() == processes@.len(),
                self.entries_view().len() <= old(self).entries_view().len(),
                forall|i: int| 0 <= i < reschedule@.len() ==> rescheduled(processes@, states@, #[trigger] reschedule@[i]),
                forall|k: int|
                    0 <= k < processes@.len() && (#[trigger] old(states)@[k]).timeout_view() is Some
                        && states@[k].timeout_view() is None ==> listed(reschedule@, processes@[k]),
            decreases self.entries_view().len(),
        {
            let ghost remaining = self.entries_view();
            let entry = match self.pop_earliest() {
                Some(entry) => entry,
                None => {
                    return (reschedule, None);
                },
            };
            let ghost popped = self.entries_view();
            proof {
                let i = choose|i: int| earliest(remaining, i) && Some(entry) == Some(#[trigger] remaining[i])
                    && popped == remaining.remove(i);
                assert forall|j: int| 0 <= j < popped.len() implies entry_deadline(entry) <= entry_deadline(
                    #[trigger] popped[j],
                ) by {
                    if j < i {
                        assert(popped[j] == remaining[j]);
                    } else {
                        assert(popped[j] == remaining[j + 1]);
                    }
                }
            }
            let target = entry.process().identifier();
            let mut found: usize = processes.len();
            let mut k: usize = 0;
            while k < processes.len()
                invariant
                    k <= processes@.len(),
                    found == processes@.len() || (found < processes@.len() && processes@[found as int]@ == target),
                decreases processes@.len() - k,
            {
                if processes[k].identifier() == target {
                    found = k;
                }
                k = k + 1;
            }
            if found == processes.len() {
                continue;
            }
            let ghost before = reschedule@;
            let ghost states_before = states@;
            let ghost process = entry.process_view();
            let outcome = self.reschedule_entry(clock, entry, &mut states[found], &mut reschedule);
            proof {
                assert forall|i: int| 0 <= i < reschedule@.len() implies rescheduled(
                    processes@,
                    states@,
                    #[trigger] reschedule@[i],
                ) by {
                    if i < before.len() {
                        assert(reschedule@[i] == before[i]);
                        assert(rescheduled(processes@, states_before, before[i]));
                        let k2 = choose|k2: int|
                            0 <= k2 < processes@.len() && processes@[k2]@ == before[i]@
                                && (#[trigger] states_before[k2]).timeout_view() is None;
                        if k2 != found {
                            assert(states@[k2] == states_before[k2]);
                        } else {
                            assert(states_before[found as int].timeout_view() is None);
                            assert(states@[k2] == states_before[k2]);
                        }
                    } else {
                        assert(processes@[found as int]@ == reschedule@[i]@);
                        assert(states@[found as int].timeout_view() is None);
                    }
                }
                assert forall|k: int|
                    0 <= k < processes@.len() && (#[trigger] old(states)@[k]).timeout_view() is Some
                        && states@[k].timeout_view() is None implies listed(reschedule@, processes@[k]) by {
                    if k != found && states_before[k].timeout_view() is None || k == found
                        && states_before[k].timeout_view() is None {
                        assert(states_before[k].timeout_view() is None);
                        let j = choose|j: int|
                            0 <= j < before.len() && (#[trigger] before[j])@ == processes@[k]@;
                        assert(reschedule@[j] == before[j]);
                    } else if k != found {
                        assert(states@[k] == states_before[k]);
                    } else {
                        assert(reschedule@ == before.push(process));
                        assert(reschedule@[before.len() as int]@ == processes@[k]@);
                    }
                }
            }
            match outcome {
                Some(duration) => {
                    return (reschedule, Some(duration));
                },
                None => {},
            }
        }
    }
}

} // verus!
