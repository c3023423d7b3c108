use libinko::process::{ProcessStatus, RescheduleRights, SharedData};
use libinko::scheduler::timeouts::Timeout;
use libinko::scheduler::timeouts::Clock;
use std::time::Duration;

#[test]
fn test_status_new_status() {
    let status = ProcessStatus::new();

    assert_eq!(status.is_main(), false);
    assert_eq!(status.is_blocking(), false);
    assert_eq!(status.is_terminated(), false);
}

#[test]
fn test_status_set_main() {
    let mut status = ProcessStatus::new();

    assert_eq!(status.is_main(), false);

    status.set_main();

    assert!(status.is_main());
}

#[test]
fn test_status_set_blocking() {
    let mut status = ProcessStatus::new();

    assert_eq!(status.is_blocking(), false);

    status.set_blocking(true);

    assert!(status.is_blocking());

    status.set_blocking(false);

    assert_eq!(status.is_blocking(), false);
}

#[test]
fn test_status_set_multiple() {
    let mut status = ProcessStatus::new();

    status.set_main();
    status.set_blocking(true);
    status.set_waiting_for_message(true);

    assert!(status.is_main());
    assert!(status.is_blocking());
    assert!(status.is_waiting_for_message());
}

#[test]
fn test_status_set_terminated() {
    let mut status = ProcessStatus::new();

    assert_eq!(status.is_terminated(), false);

    status.set_terminated();

    assert!(status.is_terminated());
}

#[test]
fn test_status_is_waiting() {
    let mut status = ProcessStatus::new();

    status.set_waiting_for_message(true);

    assert!(status.is_waiting());

    status.set_waiting_for_message(false);
    status.set_waiting_for_future(true);

    assert!(status.is_waiting());

    status.set_waiting_for_message(true);

    assert!(status.is_waiting());

    status.no_longer_waiting();

    assert_eq!(status.is_waiting(), false);
}

#[test]
fn test_shared_data_reschedule_after_timeout_of_sleeping_process() {
    let mut shared = SharedData::new();

    shared.park(Timeout::with_rc(&Clock::new(), Duration::from_secs(0).as_nanos()));

    assert_eq!(shared.try_reschedule_after_timeout(), RescheduleRights::AcquiredWithTimeout);
    assert!(!shared.status().is_waiting());
    assert!(!shared.timeout_expired());
}

#[test]
fn test_shared_data_reschedule_after_timeout_of_waiting_process() {
    let mut shared = SharedData::new();

    shared.park_for_future(None);

    assert_eq!(shared.try_reschedule_after_timeout(), RescheduleRights::Acquired);
    assert!(shared.timeout_expired());
    assert!(!shared.timeout_expired());
}

#[test]
fn test_shared_data_reschedule_for_message_and_future() {
    let mut shared = SharedData::new();

    assert_eq!(shared.try_reschedule_for_message(), RescheduleRights::Failed);

    shared.park_for_message();

    assert_eq!(shared.try_reschedule_for_message(), RescheduleRights::Acquired);
    assert_eq!(shared.try_reschedule_for_future(), RescheduleRights::Failed);

    let timeout = Timeout::with_rc(&Clock::new(), Duration::from_secs(1).as_nanos());

    shared.park_for_future(Some(timeout.clone()));

    assert!(shared.has_same_timeout(&timeout));
    assert_eq!(shared.try_reschedule_for_future(), RescheduleRights::AcquiredWithTimeout);
    assert!(!shared.has_same_timeout(&timeout));
}
