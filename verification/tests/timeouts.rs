use libinko::mem::allocator::Pointer;
use libinko::mem::process::{ProcessState, ServerPointer};
use libinko::scheduler::timeouts::{Clock, Timeout, TimeoutEntry, Timeouts};
use std::time::Duration;

/// The nanoseconds of `n` seconds.
fn secs(n: u64) -> u128 {
    Duration::from_secs(n).as_nanos()
}

#[test]
fn timeouts_test_new() {
    let clock = Clock::new();
    let timeout = Timeout::new(&clock, secs(10));

    // Due to the above code taking a tiny bit of time to run we can't
    // assert that the "resume_after" field is _exactly_ 10 seconds from
    // now.
    let after = clock.now() + secs(9);

    assert!(timeout.resume_after() >= after);
}

#[test]
fn test_with_rc() {
    let clock = Clock::new();
    let timeout = Timeout::with_rc(&clock, secs(10));
    let after = clock.now() + secs(9);

    assert!(timeout.resume_after() >= after);
}

#[test]
fn test_remaining_time_with_remaining_time() {
    let clock = Clock::new();
    let timeout = Timeout::new(&clock, secs(10));
    let remaining = timeout.remaining_time(&clock);

    assert!(remaining.is_some());
    assert!(remaining.unwrap() >= secs(9));
}

#[test]
fn test_remaining_time_without_remaining_time() {
    let clock = Clock::new();
    let timeout = Timeout::new(&clock, secs(0));

    assert!(timeout.remaining_time(&clock).is_none());
}

#[test]
fn test_timeouts_insert_and_remove_invalid_entries() {
    let clock = Clock::new();

    let mut timeouts = Timeouts::new();

    timeouts.insert(ServerPointer::new(Pointer::new(0x10)), Timeout::with_rc(&clock, secs(1)));
    timeouts.insert(ServerPointer::new(Pointer::new(0x20)), Timeout::with_rc(&clock, secs(2)));
    timeouts.insert(ServerPointer::new(Pointer::new(0x30)), Timeout::with_rc(&clock, secs(3)));

    assert_eq!(timeouts.len(), 3);
    assert_eq!(timeouts.remove_invalid_entries(&[true, false, true]), 1);
    assert_eq!(timeouts.len(), 2);
    assert_eq!(timeouts.entries()[1].process().identifier(), 0x30);
}

#[test]
fn test_timeouts_processes_to_reschedule() {
    let clock = Clock::new();

    let expired = ServerPointer::new(Pointer::new(0x10));
    let waiting = ServerPointer::new(Pointer::new(0x20));
    let stale = ServerPointer::new(Pointer::new(0x30));
    let expired_timeout = Timeout::with_rc(&clock, secs(0));
    let waiting_timeout = Timeout::with_rc(&clock, secs(100));
    let mut states = vec![ProcessState::new(), ProcessState::new(), ProcessState::new()];

    states[0].suspend(expired_timeout.clone());
    states[1].suspend(waiting_timeout.clone());

    let mut timeouts = Timeouts::new();

    timeouts.insert(waiting, waiting_timeout);
    timeouts.insert(expired, expired_timeout);
    timeouts.insert(stale, Timeout::with_rc(&clock, secs(0)));

    let (reschedule, time_left) =
        timeouts.processes_to_reschedule(&clock, &vec![expired, waiting, stale], &mut states);

    assert_eq!(reschedule, vec![expired]);
    assert!(time_left.unwrap() > secs(90));
    assert_eq!(timeouts.len(), 1);
    assert!(!states[0].status().is_waiting());
}

fn process() -> ServerPointer {
    ServerPointer::new(Pointer::new(0x10))
}

/// The validity of each entry: whether the process, whose state is `state`,
/// is still suspended with the entry's timeout.
fn validity(timeouts: &Timeouts, state: &ProcessState) -> Vec<bool> {
    timeouts.entries().iter().map(|entry| state.has_same_timeout(entry.timeout())).collect()
}

#[test]
fn test_insert() {
    let clock = Clock::new();
    let mut timeouts = Timeouts::new();
    let timeout = Timeout::with_rc(&clock, secs(10));

    timeouts.insert(process(), timeout);

    assert_eq!(timeouts.entries().len(), 1);
}

#[test]
fn test_len() {
    let clock = Clock::new();
    let mut timeouts = Timeouts::new();
    let timeout = Timeout::with_rc(&clock, secs(10));

    timeouts.insert(process(), timeout);

    assert_eq!(timeouts.len(), 1);
}

#[test]
fn test_remove_invalid_entries_with_valid_entries() {
    let clock = Clock::new();
    let mut state = ProcessState::new();
    let mut timeouts = Timeouts::new();
    let timeout = Timeout::with_rc(&clock, secs(10));

    state.waiting_for_future(Some(timeout.clone()));
    timeouts.insert(process(), timeout);

    let valid = validity(&timeouts, &state);

    assert_eq!(timeouts.remove_invalid_entries(&valid), 0);
    assert_eq!(timeouts.len(), 1);
}

#[test]
fn test_remove_invalid_entries_with_invalid_entries() {
    let clock = Clock::new();
    let state = ProcessState::new();
    let mut timeouts = Timeouts::new();
    let timeout = Timeout::with_rc(&clock, secs(10));

    timeouts.insert(process(), timeout);

    let valid = validity(&timeouts, &state);

    assert_eq!(timeouts.remove_invalid_entries(&valid), 1);
    assert_eq!(timeouts.len(), 0);
}

#[test]
fn test_processes_to_reschedule_with_invalid_entries() {
    let clock = Clock::new();
    let mut states = vec![ProcessState::new()];
    let mut timeouts = Timeouts::new();
    let timeout = Timeout::with_rc(&clock, secs(10));

    timeouts.insert(process(), timeout);

    let (reschedule, expiration) = timeouts.processes_to_reschedule(&clock, &vec![process()], &mut states);

    assert!(reschedule.is_empty());
    assert!(expiration.is_none());
}

#[test]
fn test_processes_to_reschedule_with_remaining_time() {
    let clock = Clock::new();
    let mut states = vec![ProcessState::new()];
    let mut timeouts = Timeouts::new();
    let timeout = Timeout::with_rc(&clock, secs(10));

    states[0].waiting_for_future(Some(timeout.clone()));
    timeouts.insert(process(), timeout);

    let (reschedule, expiration) = timeouts.processes_to_reschedule(&clock, &vec![process()], &mut states);

    assert!(reschedule.is_empty());
    assert!(expiration.is_some());
    assert!(expiration.unwrap() <= secs(10));
}

#[test]
fn test_processes_to_reschedule_with_entries_to_reschedule() {
    let clock = Clock::new();
    let mut states = vec![ProcessState::new()];
    let mut timeouts = Timeouts::new();
    let timeout = Timeout::with_rc(&clock, secs(0));

    states[0].waiting_for_future(Some(timeout.clone()));
    timeouts.insert(process(), timeout);

    let (reschedule, expiration) = timeouts.processes_to_reschedule(&clock, &vec![process()], &mut states);

    assert_eq!(reschedule.len(), 1);
    assert!(expiration.is_none());
}

#[test]
fn test_reschedule_checked() {
    let clock = Clock::new();
    let timeout = Timeout::with_rc(&clock, secs(10));
    let entry = || TimeoutEntry::new(process(), timeout.clone());

    // Not suspended with the entry's timeout: the entry is dropped.
    let mut timeouts = Timeouts::new();
    let mut state = ProcessState::new();
    let mut reschedule = Vec::new();
    let r = timeouts.reschedule_checked(entry(), &mut state, &mut reschedule, false, None);
    assert!(r.is_none());
    assert_eq!(timeouts.len(), 0);
    assert!(reschedule.is_empty());

    // Not yet expired: the entry is put back.
    let r = timeouts.reschedule_checked(
        entry(),
        &mut state,
        &mut reschedule,
        true,
        Some(secs(3)),
    );
    assert_eq!(r, Some(secs(3)));
    assert_eq!(timeouts.len(), 1);
    assert!(reschedule.is_empty());

    // Expired, but the process isn't waiting: nothing is rescheduled.
    let mut timeouts = Timeouts::new();
    let r = timeouts.reschedule_checked(entry(), &mut state, &mut reschedule, true, None);
    assert!(r.is_none());
    assert!(reschedule.is_empty());

    // Expired while waiting for a future: the process is rescheduled.
    state.waiting_for_future(Some(timeout.clone()));
    let r = timeouts.reschedule_checked(entry(), &mut state, &mut reschedule, true, None);
    assert!(r.is_none());
    assert_eq!(reschedule.len(), 1);
    assert_eq!(timeouts.len(), 0);
    assert!(!state.status().is_waiting());
    assert!(state.status().timeout_expired());
}

#[test]
fn test_timeout_at_and_remaining_at() {
    let timeout = Timeout::at(100, 50);

    assert_eq!(timeout.resume_after(), 150);
    assert_eq!(timeout.remaining_at(120), Some(30));
    assert_eq!(timeout.remaining_at(150), None);
    assert_eq!(timeout.remaining_at(200), None);
    assert_eq!(Timeout::at(u128::MAX - 1, 5).resume_after(), u128::MAX);
}

#[test]
fn test_pop_earliest_takes_the_earliest_deadline() {
    let mut timeouts = Timeouts::new();

    timeouts.insert(ServerPointer::new(Pointer::new(0x10)), std::sync::Arc::new(Timeout::at(0, 30)));
    timeouts.insert(ServerPointer::new(Pointer::new(0x20)), std::sync::Arc::new(Timeout::at(0, 10)));
    timeouts.insert(ServerPointer::new(Pointer::new(0x30)), std::sync::Arc::new(Timeout::at(0, 10)));

    let first = timeouts.pop_earliest().unwrap();
    assert_eq!(first.process().identifier(), 0x20);
    let second = timeouts.pop_earliest().unwrap();
    assert_eq!(second.process().identifier(), 0x30);
    let third = timeouts.pop_earliest().unwrap();
    assert_eq!(third.process().identifier(), 0x10);
    assert!(timeouts.pop_earliest().is_none());
}
