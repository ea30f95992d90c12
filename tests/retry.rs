use book_parser::retry::{
    backoff_secs, classify, AttemptResult, FetchError, NextStep, RetryPolicy, RetryState,
    StatusClass,
};
use book_parser::source::{Sites, BACKOFF_CAP_SECS, MAX_RETRIES};

fn response(status: u16) -> AttemptResult {
    AttemptResult::Response { status, retry_after: None }
}

#[test]
fn classification() {
    assert_eq!(classify(200), StatusClass::Success);
    assert_eq!(classify(204), StatusClass::Success);
    assert_eq!(classify(429), StatusClass::Retryable);
    assert_eq!(classify(500), StatusClass::Retryable);
    assert_eq!(classify(503), StatusClass::Retryable);
    assert_eq!(classify(404), StatusClass::Terminal);
    assert_eq!(classify(403), StatusClass::Terminal);
    assert_eq!(classify(301), StatusClass::Terminal);
}

#[test]
fn backoff_schedule() {
    assert_eq!(backoff_secs(0, 8), 1);
    assert_eq!(backoff_secs(1, 8), 2);
    assert_eq!(backoff_secs(2, 8), 4);
    assert_eq!(backoff_secs(3, 8), 8);
    assert_eq!(backoff_secs(4, 8), 8);
    assert_eq!(backoff_secs(200, 8), 8);
    assert_eq!(backoff_secs(70, u64::MAX), u64::MAX);
    assert_eq!(backoff_secs(63, u64::MAX), 1u64 << 63);
}

#[test]
fn rate_limit_then_success() {
    assert!(MAX_RETRIES >= 1);
    let mut state = RetryState::new(Sites::Labirint.retry_policy());
    let mut waited = 0u64;
    let mut attempts = 0;
    let mut outcome = None;
    for status in [429u16, 200] {
        attempts += 1;
        match state.on_result(response(status)) {
            NextStep::Wait(s) => waited += s,
            other => {
                outcome = Some(other);
                break;
            }
        }
    }
    assert_eq!(outcome, Some(NextStep::Deliver));
    assert_eq!(attempts, 2);
    assert_eq!(waited, 1);
    assert!(waited <= BACKOFF_CAP_SECS);
}

#[test]
fn rate_limit_with_retry_after() {
    let mut state = RetryState::new(Sites::Labirint.retry_policy());
    let step = state.on_result(AttemptResult::Response { status: 429, retry_after: Some(30) });
    assert_eq!(step, NextStep::Wait(30));
    assert_eq!(state.on_result(response(200)), NextStep::Deliver);
}

#[test]
fn not_found_fails_without_waiting() {
    let mut state = RetryState::new(Sites::Labirint.retry_policy());
    assert_eq!(state.on_result(response(404)), NextStep::Fail(FetchError::HttpStatus(404)));
    assert_eq!(state.attempt, 0);
    assert!(state.finished);
}

#[test]
fn retries_exhausted_report_last_status() {
    let mut state = RetryState::new(RetryPolicy { max_retries: 2, cap_secs: 8 });
    assert_eq!(state.on_result(response(503)), NextStep::Wait(1));
    assert_eq!(state.on_result(AttemptResult::Network), NextStep::Wait(2));
    assert_eq!(
        state.on_result(AttemptResult::Timeout),
        NextStep::Fail(FetchError::HttpStatus(503))
    );
}

#[test]
fn network_failures_report_last_error() {
    let mut state = RetryState::new(RetryPolicy { max_retries: 1, cap_secs: 8 });
    assert_eq!(state.on_result(AttemptResult::Timeout), NextStep::Wait(1));
    assert_eq!(state.on_result(AttemptResult::Network), NextStep::Fail(FetchError::Network));
}

#[test]
fn single_attempt_sources_never_retry() {
    let mut state = RetryState::new(Sites::Eksmo.retry_policy());
    assert_eq!(state.on_result(response(429)), NextStep::Fail(FetchError::HttpStatus(429)));
    let mut state = RetryState::new(Sites::IgraSlov.retry_policy());
    assert_eq!(state.on_result(AttemptResult::Timeout), NextStep::Fail(FetchError::Timeout));
}

#[test]
fn server_error_after_retry_is_final() {
    let mut state = RetryState::new(Sites::Labirint.retry_policy());
    assert_eq!(state.on_result(response(500)), NextStep::Wait(1));
    assert_eq!(state.on_result(response(502)), NextStep::Fail(FetchError::HttpStatus(502)));
}
