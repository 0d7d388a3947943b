//! The teardown retry discipline: a bounded number of retries before a
//! deletion failure is fatal, and a late success is still a success.

use boomerang::commands::{evaluate_attempts, CommandRetryState, RetryDecision};
use boomerang::validator::{
    validator_lifecycle_next,
    ValidatorEvent,
    ValidatorState,
    TEARDOWN_NUM_RETRIES,
};

#[test]
fn success_on_second_attempt_is_a_success() {
    let outcomes = vec![false, true, false, false];
    assert_eq!(evaluate_attempts(&outcomes, TEARDOWN_NUM_RETRIES), Some(1));
}

#[test]
fn immediate_success_needs_no_retry() {
    let outcomes = vec![true, false, false, false];
    assert_eq!(evaluate_attempts(&outcomes, TEARDOWN_NUM_RETRIES), Some(0));
}

#[test]
fn success_on_last_allowed_attempt_is_a_success() {
    let outcomes = vec![false, false, false, true];
    assert_eq!(evaluate_attempts(&outcomes, TEARDOWN_NUM_RETRIES), Some(3));
}

#[test]
fn four_failures_exhaust_three_retries() {
    let outcomes = vec![false, false, false, false, true];
    assert_eq!(evaluate_attempts(&outcomes, TEARDOWN_NUM_RETRIES), None);
}

#[test]
fn retry_state_walks_the_budget() {
    let mut state = CommandRetryState::new(TEARDOWN_NUM_RETRIES);
    assert_eq!(state.on_attempt(false), RetryDecision::Retry);
    assert_eq!(state.on_attempt(false), RetryDecision::Retry);
    assert_eq!(state.on_attempt(false), RetryDecision::Retry);
    assert_eq!(state.on_attempt(false), RetryDecision::Fatal);
}

#[test]
fn retry_state_stops_on_success() {
    let mut state = CommandRetryState::new(TEARDOWN_NUM_RETRIES);
    assert_eq!(state.on_attempt(false), RetryDecision::Retry);
    assert_eq!(state.on_attempt(true), RetryDecision::Done);
}

#[test]
fn validator_lifecycle_brackets_every_chunk() {
    // Defensive teardown from idle, then start, run, teardown.
    let s = ValidatorState::Idle;
    let s = validator_lifecycle_next(s, ValidatorEvent::TeardownIssued).unwrap();
    let s = validator_lifecycle_next(s, ValidatorEvent::TeardownFinished).unwrap();
    let s = validator_lifecycle_next(s, ValidatorEvent::StartIssued).unwrap();
    assert_eq!(s, ValidatorState::Starting);
    let s = validator_lifecycle_next(s, ValidatorEvent::BecameReady).unwrap();
    assert_eq!(s, ValidatorState::Ready);
    let s = validator_lifecycle_next(s, ValidatorEvent::TeardownIssued).unwrap();
    let s = validator_lifecycle_next(s, ValidatorEvent::TeardownFinished).unwrap();
    assert_eq!(s, ValidatorState::Idle);
}

#[test]
fn validator_lifecycle_refuses_running_before_ready() {
    let s = ValidatorState::Starting;
    assert_eq!(validator_lifecycle_next(s, ValidatorEvent::StartIssued), None);
    assert_eq!(
        validator_lifecycle_next(ValidatorState::TearingDown, ValidatorEvent::StartIssued),
        None
    );
}
