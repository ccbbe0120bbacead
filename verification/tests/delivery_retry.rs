use cipher::delivery::{answer_outcome, DeliveryError, DeliveryRetry, DeliveryStep, HttpFailure};

fn http(timeout: bool, connect: bool, request: bool) -> DeliveryError {
    DeliveryError::HttpError(HttpFailure { is_timeout: timeout, is_connect: connect, is_request: request })
}

#[test]
fn retriable_errors() {
    assert!(DeliveryError::StatusError(500).is_retriable());
    assert!(DeliveryError::StatusError(599).is_retriable());
    assert!(DeliveryError::StatusError(429).is_retriable());
    assert!(!DeliveryError::StatusError(404).is_retriable());
    assert!(!DeliveryError::StatusError(600).is_retriable());
    assert!(!DeliveryError::StatusError(400).is_retriable());
    assert!(http(true, false, false).is_retriable());
    assert!(http(false, true, false).is_retriable());
    assert!(http(false, false, true).is_retriable());
    assert!(!http(false, false, false).is_retriable());
}

#[test]
fn success_on_first_attempt() {
    let (mut retry, step) = DeliveryRetry::start();
    assert_eq!(step, DeliveryStep::Attempt { attempt: 0, delay_secs: 0 });
    assert_eq!(retry.record(Ok(())), DeliveryStep::Finish(Ok(())));
}

#[test]
fn retriable_failures_wait_two_then_four_seconds_then_give_up() {
    let (mut retry, _) = DeliveryRetry::start();
    let e = DeliveryError::StatusError(503);
    assert_eq!(retry.record(Err(e)), DeliveryStep::Attempt { attempt: 1, delay_secs: 2 });
    assert_eq!(retry.record(Err(e)), DeliveryStep::Attempt { attempt: 2, delay_secs: 4 });
    let last = http(true, false, false);
    assert_eq!(retry.record(Err(last)), DeliveryStep::Finish(Err(last)));
}

#[test]
fn non_retriable_failure_stops_at_once() {
    let (mut retry, _) = DeliveryRetry::start();
    let e = DeliveryError::StatusError(404);
    assert_eq!(retry.record(Err(e)), DeliveryStep::Finish(Err(e)));
}

#[test]
fn success_after_a_retry() {
    let (mut retry, _) = DeliveryRetry::start();
    assert_eq!(
        retry.record(Err(DeliveryError::StatusError(429))),
        DeliveryStep::Attempt { attempt: 1, delay_secs: 2 }
    );
    assert_eq!(retry.record(Ok(())), DeliveryStep::Finish(Ok(())));
}

#[test]
fn answers_map_to_outcomes() {
    assert_eq!(answer_outcome(200), Ok(()));
    assert_eq!(answer_outcome(204), Ok(()));
    assert_eq!(answer_outcome(299), Ok(()));
    assert_eq!(answer_outcome(301), Err(DeliveryError::StatusError(301)));
    assert_eq!(answer_outcome(500), Err(DeliveryError::StatusError(500)));
}
