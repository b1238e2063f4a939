//! How the outcome of a Spotify Web API call is turned into what the user sees.
//!
//! A call that failed for an invalid token is tried once more (the token is
//! refreshed in between); a missing token means the user is logged out and
//! nothing is shown; rate limiting and other failures become notifications.

use vstd::prelude::*;

use crate::actions::Notice;

verus! {

/// The kinds of failure of a Spotify Web API call that the policy tells apart.
#[derive(Clone, Copy, Debug, PartialEq, Eq, Structural)]
pub enum ApiError {
    NoToken,
    InvalidToken,
    TooManyRequests,
    /// Any other failure.
    Other,
}

/// What becomes of a call.
#[derive(Clone, Copy, Debug, PartialEq, Eq, Structural)]
pub enum CallOutcome {
    /// Hand the result on.
    Deliver,
    /// Show nothing.
    Drop,
    Notify(Notice),
}

/// A call is tried a second time only when the first attempt failed for an
/// invalid token (`None` is success).
pub open spec fn needs_retry_spec(first: Option<ApiError>) -> bool {
    first == Some(ApiError::InvalidToken)
}

pub fn needs_retry(first: Option<ApiError>) -> (r: bool)
    ensures
        r == needs_retry_spec(first),
{
    first == Some(ApiError::InvalidToken)
}

pub open spec fn failure_notice(e: ApiError) -> CallOutcome {
    match e {
        ApiError::NoToken | ApiError::InvalidToken => CallOutcome::Drop,
        ApiError::TooManyRequests => CallOutcome::Notify(Notice::RateLimited),
        ApiError::Other => CallOutcome::Notify(Notice::GenericError),
    }
}

/// Calls that dispatch actions: a failed second attempt shows nothing.
pub open spec fn dispatch_outcome_spec(first: Option<ApiError>, retry: Option<ApiError>) -> CallOutcome {
    match first {
        None => CallOutcome::Deliver,
        Some(ApiError::InvalidToken) => if retry is None {
            CallOutcome::Deliver
        } else {
            CallOutcome::Drop
        },
        Some(e) => failure_notice(e),
    }
}

/// Batch loads: the result that counts is the second attempt's when there was
/// one, and it is judged like a first failure.
pub open spec fn batch_outcome_spec(first: Option<ApiError>, retry: Option<ApiError>) -> CallOutcome {
    let last = if needs_retry_spec(first) {
        retry
    } else {
        first
    };
    match last {
        None => CallOutcome::Deliver,
        Some(e) => failure_notice(e),
    }
}

fn outcome_of_failure(e: ApiError) -> (r: CallOutcome)
    ensures
        r == failure_notice(e),
{
    match e {
        ApiError::NoToken | ApiError::InvalidToken => CallOutcome::Drop,
        ApiError::TooManyRequests => CallOutcome::Notify(Notice::RateLimited),
        ApiError::Other => CallOutcome::Notify(Notice::GenericError),
    }
}

/// The outcome of a call whose result is dispatched as actions, given the
/// first attempt and (when one was made) the second.
pub fn dispatch_outcome(first: Option<ApiError>, retry: Option<ApiError>) -> (r: CallOutcome)
    ensures
        r == dispatch_outcome_spec(first, retry),
{
    match first {
        None => CallOutcome::Deliver,
        Some(ApiError::InvalidToken) => if retry.is_none() {
            CallOutcome::Deliver
        } else {
            CallOutcome::Drop
        },
        Some(e) => outcome_of_failure(e),
    }
}

/// The outcome of a batch load, given the first attempt and (when one was
/// made) the second.
pub fn batch_outcome(first: Option<ApiError>, retry: Option<ApiError>) -> (r: CallOutcome)
    ensures
        r == batch_outcome_spec(first, retry),
{
    let last = if needs_retry(first) {
        retry
    } else {
        first
    };
    match last {
        None => CallOutcome::Deliver,
        Some(e) => outcome_of_failure(e),
    }
}

/// Success is delivered, a missing token is never reported, and nothing is
/// tried more than twice: both policies agree on every first attempt that
/// needs no retry.
pub proof fn law_policies_agree_without_retry(first: Option<ApiError>, retry: Option<ApiError>)
    requires
        !needs_retry_spec(first),
    ensures
        dispatch_outcome_spec(first, retry) == batch_outcome_spec(first, retry),
        first is None ==> dispatch_outcome_spec(first, retry) == CallOutcome::Deliver,
        first == Some(ApiError::NoToken) ==> dispatch_outcome_spec(first, retry)
            == CallOutcome::Drop,
{
}

} // verus!
