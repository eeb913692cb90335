//! Submitter tests: error classification, the transition table, and whole
//! submission runs against scripted endpoints.

use omni_box::errors::OmniError;
use omni_box::submitter::{
    classify_failure, run_submission, str_contains, submit_step, CallOutcome, SubmitAction,
    SubmitState, DEADLINE_MILLIS,
};

#[test]
fn classifies_timeouts_by_kind_and_by_message() {
    assert_eq!(classify_failure(true, "anything"), CallOutcome::GatewayTimeout);
    assert_eq!(
        classify_failure(false, "server said: 408 Request Timeout, try later"),
        CallOutcome::GatewayTimeout
    );
    assert_eq!(classify_failure(false, "500 Internal Server Error"), CallOutcome::Fatal);
    assert_eq!(classify_failure(false, ""), CallOutcome::Fatal);
    assert_eq!(classify_failure(false, "408 request timeout"), CallOutcome::Fatal);
}

#[test]
fn substring_search_matches_exactly() {
    assert!(str_contains("408 Request Timeout", "408 Request Timeout"));
    assert!(str_contains("x408 Request Timeoutx", "408 Request Timeout"));
    assert!(!str_contains("408 Request Timeou", "408 Request Timeout"));
    assert!(str_contains("abc", ""));
    assert!(!str_contains("", "a"));
}

#[test]
fn sending_transitions() {
    assert_eq!(
        submit_step(SubmitState::Sending, CallOutcome::Success, 0),
        SubmitAction::ReturnSuccess
    );
    assert_eq!(
        submit_step(SubmitState::Sending, CallOutcome::GatewayTimeout, 0),
        SubmitAction::Poll
    );
    assert_eq!(
        submit_step(SubmitState::Sending, CallOutcome::Fatal, 0),
        SubmitAction::ReturnError(OmniError::TransportFailure)
    );
}

#[test]
fn polling_transitions_respect_the_deadline() {
    assert_eq!(
        submit_step(SubmitState::Polling, CallOutcome::Success, DEADLINE_MILLIS),
        SubmitAction::ReturnSuccess
    );
    assert_eq!(
        submit_step(SubmitState::Polling, CallOutcome::GatewayTimeout, 10),
        SubmitAction::Poll
    );
    assert_eq!(
        submit_step(SubmitState::Polling, CallOutcome::Fatal, 10),
        SubmitAction::ReturnError(OmniError::TransportFailure)
    );
    // Past the deadline the observed outcome no longer matters.
    assert_eq!(
        submit_step(SubmitState::Polling, CallOutcome::Success, DEADLINE_MILLIS + 1),
        SubmitAction::ReturnError(OmniError::DeadlineExceeded)
    );
}

#[test]
fn timeout_then_success_on_first_poll_is_delivered() {
    let outcomes = vec![CallOutcome::GatewayTimeout, CallOutcome::Success];
    let elapsed = vec![1000u64, 5000];
    assert_eq!(run_submission(&outcomes, &elapsed), Some(Ok(1)));
}

#[test]
fn immediate_success_never_polls() {
    let outcomes = vec![CallOutcome::Success];
    let elapsed = vec![100u64];
    assert_eq!(run_submission(&outcomes, &elapsed), Some(Ok(0)));
}

#[test]
fn endless_timeouts_end_in_deadline_exceeded() {
    // 150 simulated polls of four seconds each: the first poll observed past
    // the 300-second ceiling aborts the run.
    let outcomes = vec![CallOutcome::GatewayTimeout; 150];
    let elapsed: Vec<u64> = (0..150u64).map(|i| (i + 1) * 4000).collect();
    assert_eq!(
        run_submission(&outcomes, &elapsed),
        Some(Err(OmniError::DeadlineExceeded))
    );
    // The run survives exactly while elapsed time stays at or under the
    // ceiling: 300,000 ms is still in time, 300,001 ms is not.
    let outcomes = vec![
        CallOutcome::GatewayTimeout,
        CallOutcome::GatewayTimeout,
        CallOutcome::Success,
    ];
    assert_eq!(
        run_submission(&outcomes, &vec![0, DEADLINE_MILLIS, DEADLINE_MILLIS + 1]),
        Some(Err(OmniError::DeadlineExceeded))
    );
    assert_eq!(
        run_submission(&outcomes, &vec![0, DEADLINE_MILLIS - 1, DEADLINE_MILLIS]),
        Some(Ok(2))
    );
}

#[test]
fn fatal_errors_surface_immediately() {
    let outcomes = vec![CallOutcome::Fatal];
    assert_eq!(
        run_submission(&outcomes, &vec![0]),
        Some(Err(OmniError::TransportFailure))
    );
    let outcomes = vec![CallOutcome::GatewayTimeout, CallOutcome::Fatal];
    assert_eq!(
        run_submission(&outcomes, &vec![0, 10]),
        Some(Err(OmniError::TransportFailure))
    );
}

#[test]
fn an_exhausted_script_reports_no_verdict() {
    let outcomes = vec![CallOutcome::GatewayTimeout, CallOutcome::GatewayTimeout];
    assert_eq!(run_submission(&outcomes, &vec![0, 10]), None);
}
