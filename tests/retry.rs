use flower_care::error::FlowerError;
use flower_care::retry::{ConnectRetry, RetryAction, RetryEvent, RetryPhase, RETRY_DELAY_SECS};

/// Drives a retry against a scripted transport; gives the result, the
/// number of connection attempts made and the total delay in seconds.
fn drive(max_attempts: u8, outcomes: &[bool]) -> (Result<(), FlowerError>, usize, u64) {
    let mut retry = ConnectRetry::new(max_attempts);
    let mut attempts = 0usize;
    let mut delay = 0u64;
    loop {
        match retry.action() {
            RetryAction::Connect => {
                let ok = outcomes[attempts];
                attempts += 1;
                retry.on_event(if ok { RetryEvent::ConnectSucceeded } else { RetryEvent::ConnectFailed });
            }
            RetryAction::Wait => {
                delay += RETRY_DELAY_SECS;
                retry.on_event(RetryEvent::DelayElapsed);
            }
            RetryAction::Succeed | RetryAction::GiveUp => {
                return (retry.outcome().unwrap(), attempts, delay);
            }
        }
    }
}

#[test]
fn succeeds_on_third_attempt() {
    let (result, attempts, delay) = drive(3, &[false, false, true]);
    assert_eq!(result, Ok(()));
    assert_eq!(attempts, 3);
    assert_eq!(delay, 2 * RETRY_DELAY_SECS);
}

#[test]
fn always_failing_transport_times_out() {
    let (result, attempts, delay) = drive(2, &[false, false, false, false]);
    assert_eq!(result, Err(FlowerError::ConnectionTimeout));
    assert_eq!(attempts, 2);
    assert_eq!(delay, RETRY_DELAY_SECS);
}

#[test]
fn first_success_needs_no_delay() {
    let (result, attempts, delay) = drive(5, &[true]);
    assert_eq!(result, Ok(()));
    assert_eq!(attempts, 1);
    assert_eq!(delay, 0);
}

#[test]
fn zero_attempts_times_out_at_once() {
    let (result, attempts, delay) = drive(0, &[]);
    assert_eq!(result, Err(FlowerError::ConnectionTimeout));
    assert_eq!(attempts, 0);
    assert_eq!(delay, 0);
}

#[test]
fn largest_budget_is_used_up() {
    let outcomes = vec![false; 255];
    let (result, attempts, delay) = drive(255, &outcomes);
    assert_eq!(result, Err(FlowerError::ConnectionTimeout));
    assert_eq!(attempts, 255);
    assert_eq!(delay, 254 * RETRY_DELAY_SECS);
}

#[test]
fn delay_is_five_seconds() {
    assert_eq!(RETRY_DELAY_SECS, 5);
}

#[test]
fn stray_events_change_nothing() {
    let mut retry = ConnectRetry::new(2);
    retry.on_event(RetryEvent::DelayElapsed);
    assert_eq!(retry, ConnectRetry { max_attempts: 2, attempts: 1, phase: RetryPhase::Connecting });
    assert_eq!(retry.outcome(), None);
    retry.on_event(RetryEvent::ConnectSucceeded);
    retry.on_event(RetryEvent::ConnectFailed);
    assert_eq!(retry.phase, RetryPhase::Connected);
    assert_eq!(retry.action(), RetryAction::Succeed);
}
