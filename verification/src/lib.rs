//! A cluster controller that drives a declarative `WorkerGroup` resource
//! toward a desired worker-pod topology: clients declare a replica count and
//! a container image, and the controller plans and executes corrective
//! actions (creating worker pods) until the observed state matches.

pub mod metrics;
pub mod operator;
pub mod schedule;
pub mod worker_group;

use vstd::prelude::*;

verus! {

/// One reconciliation outcome: an instruction to re-invoke reconciliation
/// for the same resource after the given delay.
#[derive(Debug, Clone)]
pub struct Action {
    pub requeue_after_seconds: u64,
}

impl Action {
    /// A requeue action with a fixed delay, in seconds.
    pub fn requeue(seconds: u64) -> (a: Action)
        ensures
            a.requeue_after_seconds == seconds,
    {
        Action { requeue_after_seconds: seconds }
    }
}

/// Process-local diagnostics shared by all reconciliations: the time of the
/// last observed reconcile event and the reporter identity used when
/// publishing events.
#[derive(Debug, Clone)]
pub struct Diagnostics {
    /// Milliseconds since the Unix epoch at which the last reconcile event
    /// was observed.
    pub last_event: i64,
    /// The reporter identity used when publishing events.
    pub reporter: String,
}

/// Relies on `chrono::Utc::now` and `DateTime::timestamp_millis`: the current
/// time as milliseconds since the Unix epoch. Nothing is assumed of the value.
#[verifier::external_body]
fn now_unix_millis() -> i64 {
    chrono::Utc::now().timestamp_millis()
}

impl Default for Diagnostics {
    fn default() -> (d: Self)
        ensures
            d.reporter@ == "probelet-operator"@,
    {
        Diagnostics { last_event: now_unix_millis(), reporter: "probelet-operator".to_owned() }
    }
}

impl Diagnostics {
    /// Record that a reconcile event was observed at `now` (milliseconds
    /// since the Unix epoch, as the caller's clock read it): the timestamp is
    /// set to exactly that value and nothing else changes.
    pub fn record_event(&mut self, now: i64)
        ensures
            final(self).last_event == now,
            final(self).reporter == old(self).reporter,
    {
        self.last_event = now;
    }
}

} // verus!
