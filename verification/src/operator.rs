//! The probe resource skeleton and the controller-loop startup rule: the
//! resource kind must be queryable before the loop subscribes, and a failed
//! existence check is fatal.

use vstd::prelude::*;

use crate::worker_group::crd::ObjectMeta;
use crate::worker_group::REQUEUE_INTERVAL_SECONDS;
use crate::Action;

verus! {

/// A probe that can be used to check the status of a resource.
#[derive(Debug, Clone)]
pub struct HttpProbe {
    /// The URL to monitor.
    pub url: String,
    /// The HTTP method to use.
    pub method: String,
}

/// The kind of probe to use.
#[derive(Debug, Clone)]
pub enum ProbeKind {
    /// An HTTP probe.
    Http(HttpProbe),
}

/// Desired state of a `Probe`.
#[derive(Debug, Clone)]
pub struct ProbeSpec {
    /// Which probe to run.
    pub kind: ProbeKind,
}

/// The status object of `Probe`; nothing is reported yet.
#[derive(Debug, Clone)]
pub struct ProbeStatus {}

/// The `Probe` resource.
#[derive(Debug, Clone)]
pub struct Probe {
    /// Identity and lifecycle metadata.
    pub metadata: ObjectMeta,
    /// Desired state.
    pub spec: ProbeSpec,
    /// Observed state, absent until first written.
    pub status: Option<ProbeStatus>,
}

/// State shared between the operator and the web server.
#[derive(Debug, Clone)]
pub struct State {}

/// The probe reconciler: nothing to correct yet, only the fixed requeue.
pub fn reconcile_probe(_probe: &Probe) -> (a: Action)
    ensures
        a.requeue_after_seconds == REQUEUE_INTERVAL_SECONDS,
{
    Action::requeue(REQUEUE_INTERVAL_SECONDS)
}

/// Whether the process may enter its controller loop.
#[derive(PartialEq, Eq, Structural, Clone, Copy, Debug)]
pub enum StartupDecision {
    /// The resource kind is installed: subscribe to change notifications.
    Run,
    /// The resource kind is not queryable: terminate immediately with this
    /// non-zero exit code.
    Exit {
        /// The process exit code.
        code: i32,
    },
}

/// The startup precondition: before subscribing to change notifications the
/// controller makes a cheap existence check against the resource kind; if
/// that check fails the kind is treated as not installed and the process
/// must terminate with a non-zero exit code — fatal, not retryable.
pub fn startup_decision(kind_queryable: bool) -> (d: StartupDecision)
    ensures
        kind_queryable <==> d == StartupDecision::Run,
        !kind_queryable ==> d == (StartupDecision::Exit { code: 1 }),
        d matches StartupDecision::Exit { code } ==> code != 0,
{
    if kind_queryable {
        StartupDecision::Run
    } else {
        StartupDecision::Exit { code: 1 }
    }
}

} // verus!
