//! How long exit may wait for telemetry to flush. Running the flush on its
//! own thread and waiting for it is the front end's; the budget and the
//! vocabulary of the outcome are decided here.

use crate::telemetry::axes::Deployment;
use crate::telemetry::policy::TelemetryPolicy;
use vstd::prelude::*;

verus! {

/// Whether a bounded flush finished on its own or was cut off by its budget.
#[derive(Debug, Clone, Copy, PartialEq, Eq, Structural)]
pub enum FlushOutcome {
    /// The flush returned before the budget elapsed.
    Completed,
    /// The budget elapsed first; the flush may still be running, unobserved.
    TimedOut,
}

/// How long an end-user CLI may spend flushing telemetry on the way out,
/// in milliseconds.
pub const END_USER_FLUSH_BUDGET_MS: u64 = 500;

/// The drop-time flush budget, in milliseconds: bounded on an end-user
/// install, so a dead collector never holds a person's terminal; unbounded
/// (`None`) on a service, which has a shutdown grace period to spend.
pub fn flush_budget_for(policy: &TelemetryPolicy) -> (r: Option<u64>)
    ensures
        r == if policy.deployment is EndUser {
            Some(END_USER_FLUSH_BUDGET_MS)
        } else {
            None::<u64>
        },
{
    match policy.deployment {
        Deployment::EndUser { .. } => Some(END_USER_FLUSH_BUDGET_MS),
        Deployment::Service => None,
    }
}

/// What a wait for a flush gives: finished in time or not.
pub fn flush_outcome(finished_in_time: bool) -> (r: FlushOutcome)
    ensures
        r == if finished_in_time {
            FlushOutcome::Completed
        } else {
            FlushOutcome::TimedOut
        },
{
    if finished_in_time {
        FlushOutcome::Completed
    } else {
        FlushOutcome::TimedOut
    }
}

} // verus!
