//! The accept loop's resilience policy, shared by all three listeners.
//!
//! A listener binds once (a bind failure is fatal to that listener's
//! startup) and then accepts forever. Each accepted connection is
//! dispatched as an independent concurrent task; a failed accept never ends
//! the loop, it is retried after a fixed pause so a persistent failure
//! cannot spin the CPU. There is no backoff growth: the interval is
//! constant, indefinitely.

use vstd::prelude::*;

verus! {

/// How long the accept loop pauses after a failed accept, in seconds.
pub const ACCEPT_RETRY_DELAY_SECS: u64 = 1;

/// What the accept loop does with one accept attempt's outcome.
#[derive(Clone, Copy, Debug, PartialEq, Eq, Structural)]
pub enum AcceptDirective {
    /// Hand the accepted connection to the protocol handler as its own
    /// concurrent task and accept again at once.
    Dispatch,
    /// Log the failure, sleep this many seconds, then accept again.
    RetryAfterDelay { seconds: u64 },
}

/// Decides the accept loop's next step from whether the accept succeeded.
pub fn accept_policy(accepted: bool) -> (r: AcceptDirective)
    ensures
        accepted ==> r is Dispatch,
        !accepted ==> r == (AcceptDirective::RetryAfterDelay {
            seconds: ACCEPT_RETRY_DELAY_SECS,
        }),
{
    if accepted {
        AcceptDirective::Dispatch
    } else {
        AcceptDirective::RetryAfterDelay { seconds: ACCEPT_RETRY_DELAY_SECS }
    }
}

} // verus!
