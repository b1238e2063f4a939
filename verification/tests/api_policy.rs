use riff::actions::Notice;
use riff::api_policy::{batch_outcome, dispatch_outcome, needs_retry, ApiError, CallOutcome};

#[test]
fn only_an_invalid_token_is_retried() {
    assert!(needs_retry(Some(ApiError::InvalidToken)));
    assert!(!needs_retry(None));
    assert!(!needs_retry(Some(ApiError::NoToken)));
    assert!(!needs_retry(Some(ApiError::TooManyRequests)));
    assert!(!needs_retry(Some(ApiError::Other)));
}

#[test]
fn success_is_delivered() {
    assert_eq!(dispatch_outcome(None, None), CallOutcome::Deliver);
    assert_eq!(batch_outcome(None, None), CallOutcome::Deliver);
}

#[test]
fn retry_after_invalid_token() {
    assert_eq!(dispatch_outcome(Some(ApiError::InvalidToken), None), CallOutcome::Deliver);
    assert_eq!(
        dispatch_outcome(Some(ApiError::InvalidToken), Some(ApiError::TooManyRequests)),
        CallOutcome::Drop
    );
    assert_eq!(
        batch_outcome(Some(ApiError::InvalidToken), Some(ApiError::TooManyRequests)),
        CallOutcome::Notify(Notice::RateLimited)
    );
    assert_eq!(batch_outcome(Some(ApiError::InvalidToken), None), CallOutcome::Deliver);
}

#[test]
fn failures_become_notifications() {
    assert_eq!(dispatch_outcome(Some(ApiError::NoToken), None), CallOutcome::Drop);
    assert_eq!(
        dispatch_outcome(Some(ApiError::TooManyRequests), None),
        CallOutcome::Notify(Notice::RateLimited)
    );
    assert_eq!(
        dispatch_outcome(Some(ApiError::Other), None),
        CallOutcome::Notify(Notice::GenericError)
    );
    assert_eq!(
        batch_outcome(Some(ApiError::Other), Some(ApiError::NoToken)),
        CallOutcome::Notify(Notice::GenericError)
    );
}
