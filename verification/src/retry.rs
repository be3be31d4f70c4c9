use vstd::prelude::*;

verus! {

/// How a failed request is to be retried.
#[derive(PartialEq, Eq, Structural, Clone, Copy, Debug)]
pub enum RetryKind {
    /// The failure may pass; the request is sent again.
    Transient,
    /// The failure will not pass; the request is given up.
    Fatal,
}

/// What came of one attempt at a request, as far as the retry rule reads it.
#[derive(PartialEq, Eq, Structural, Clone, Copy, Debug)]
pub enum RequestOutcome {
    /// A response arrived.
    Success,
    /// The request failed. `has_status` tells whether the failure carries an
    /// HTTP status; `default_decision` is what the HTTP client's default rule
    /// decides for this failure.
    Failure { has_status: bool, default_decision: Option<RetryKind> },
}

/// The retry rule of the crawler: a response is never retried; a failure
/// without an HTTP status (such as a closed channel) is always retried as
/// transient; any other failure follows the client's default rule.
pub fn retry_decision(outcome: &RequestOutcome) -> (r: Option<RetryKind>)
    ensures
        r == match *outcome {
            RequestOutcome::Success => None,
            RequestOutcome::Failure { has_status, default_decision } => if has_status {
                default_decision
            } else {
                Some(RetryKind::Transient)
            },
        },
{
    match outcome {
        RequestOutcome::Success => None,
        RequestOutcome::Failure { has_status, default_decision } => {
            if !*has_status {
                Some(RetryKind::Transient)
            } else {
                *default_decision
            }
        },
    }
}

} // verus!
