//! The `WorkerGroup` controller: resource model, task planning, worker
//! lifecycle, finalizer-gated reconciliation and the error policy.

pub mod crd;
pub mod error;
pub mod reconcile;
pub mod worker;

pub use crd::WorkerGroup;

use vstd::prelude::*;

use crate::metrics::{counter_views, failure_counted, Metrics};
use crate::Action;
use error::WorkerGroupError;
use reconcile::{planned_task, ReconcileWorkerGroupTask};

verus! {

/// The content of a list of finalizer markers, by character content.
pub open spec fn string_views(s: Seq<String>) -> Seq<Seq<char>> {
    s.map_values(|x: String| x@)
}

/// The finalizer marker placed on every `WorkerGroup` so that cleanup runs
/// before the resource is fully removed.
pub const WORKER_GROUP_FINALIZER: &'static str = "probelet.io/worker-group";

/// The fixed steady-state re-check interval, in seconds.
pub const REQUEUE_INTERVAL_SECONDS: u64 = 300;

/// What the finalizer protocol asks for next, computed from the resource's
/// deletion timestamp and its finalizer list.
#[derive(PartialEq, Eq, Structural, Clone, Copy, Debug)]
pub enum FinalizerStep {
    /// The finalizer marker is absent and the resource is live: the marker
    /// must be registered before any apply reconciliation runs.
    RegisterFinalizer,
    /// The marker is present and the resource is live: run the apply path.
    Apply,
    /// The marker is present and the resource is marked for deletion: run
    /// cleanup; the marker is removed only after cleanup succeeds.
    Cleanup,
    /// The marker is absent and the resource is marked for deletion: the
    /// lifecycle is over and nothing remains to do.
    Finished,
}

impl WorkerGroup {
    /// Whether this resource carries the `WorkerGroup` finalizer marker.
    pub fn has_finalizer(&self) -> (r: bool)
        ensures
            r <==> self.spec_has_finalizer(),
    {
        let marker: String = WORKER_GROUP_FINALIZER.to_owned();
        let mut i: usize = 0;
        let n = self.metadata.finalizers.len();
        while i < n
            invariant
                i <= n,
                n == self.metadata.finalizers.len(),
                marker@ == WORKER_GROUP_FINALIZER@,
                forall|j: int| 0 <= j < i ==> self.metadata.finalizers@[j]@ != WORKER_GROUP_FINALIZER@,
            decreases n - i,
        {
            if self.metadata.finalizers[i] == marker {
                return true;
            }
            i += 1;
        }
        false
    }

    /// Whether the finalizer list holds the `WorkerGroup` marker.
    pub open spec fn spec_has_finalizer(&self) -> bool {
        exists|j: int|
            0 <= j < self.metadata.finalizers@.len() && self.metadata.finalizers@[j]@
                == WORKER_GROUP_FINALIZER@
    }

    /// Classify the resource under the finalizer protocol: live resources
    /// without the marker first get it registered, live resources with the
    /// marker are applied, deleting resources with the marker are cleaned up,
    /// and deleting resources without the marker are finished.
    pub fn finalizer_step(&self) -> (step: FinalizerStep)
        ensures
            step == self.spec_finalizer_step(),
    {
        let deleting = self.metadata.deletion_timestamp.is_some();
        let marked = self.has_finalizer();
        if deleting {
            if marked {
                FinalizerStep::Cleanup
            } else {
                FinalizerStep::Finished
            }
        } else {
            if marked {
                FinalizerStep::Apply
            } else {
                FinalizerStep::RegisterFinalizer
            }
        }
    }

    /// The step the finalizer protocol asks for.
    pub open spec fn spec_finalizer_step(&self) -> FinalizerStep {
        if self.metadata.deletion_timestamp is Some {
            if self.spec_has_finalizer() {
                FinalizerStep::Cleanup
            } else {
                FinalizerStep::Finished
            }
        } else {
            if self.spec_has_finalizer() {
                FinalizerStep::Apply
            } else {
                FinalizerStep::RegisterFinalizer
            }
        }
    }

    /// The finalizer list with the `WorkerGroup` marker registered at the
    /// end: what the first apply of a live resource patches onto it, so that
    /// the resource cannot be fully deleted before cleanup has run.
    pub fn finalizers_with_marker(&self) -> (r: Vec<String>)
        ensures
            string_views(r@) =~= string_views(self.metadata.finalizers@).push(
                WORKER_GROUP_FINALIZER@,
            ),
    {
        let n = self.metadata.finalizers.len();
        let mut out: Vec<String> = Vec::new();
        let mut i: usize = 0;
        while i < n
            invariant
                i <= n,
                n == self.metadata.finalizers@.len(),
                out@.len() == i,
                forall|j: int| 0 <= j < i ==> out@[j]@ == self.metadata.finalizers@[j]@,
            decreases n - i,
        {
            out.push(self.metadata.finalizers[i].clone());
            i += 1;
        }
        out.push(WORKER_GROUP_FINALIZER.to_owned());
        out
    }

    /// The finalizer list after cleanup succeeded: the first occurrence of
    /// the `WorkerGroup` marker removed, everything else kept in order; the
    /// list unchanged when the marker is absent.
    pub fn finalizers_without_marker(&self) -> (r: Vec<String>)
        ensures
            !self.spec_has_finalizer() ==> string_views(r@) =~= string_views(
                self.metadata.finalizers@,
            ),
            self.spec_has_finalizer() ==> exists|i: int|
                {
                    &&& 0 <= i < self.metadata.finalizers@.len()
                    &&& self.metadata.finalizers@[i]@ == WORKER_GROUP_FINALIZER@
                    &&& forall|j: int|
                        0 <= j < i ==> self.metadata.finalizers@[j]@ != WORKER_GROUP_FINALIZER@
                    &&& string_views(r@) =~= string_views(self.metadata.finalizers@).remove(i)
                },
    {
        let marker: String = WORKER_GROUP_FINALIZER.to_owned();
        let n = self.metadata.finalizers.len();
        let mut out: Vec<String> = Vec::new();
        let mut i: usize = 0;
        while i < n
            invariant
                i <= n,
                n == self.metadata.finalizers@.len(),
                marker@ == WORKER_GROUP_FINALIZER@,
                out@.len() == i,
                forall|j: int| 0 <= j < i ==> out@[j]@ == self.metadata.finalizers@[j]@,
                forall|j: int| 0 <= j < i ==> self.metadata.finalizers@[j]@ != WORKER_GROUP_FINALIZER@,
            decreases n - i,
        {
            if self.metadata.finalizers[i] == marker {
                let mut k: usize = i + 1;
                while k < n
                    invariant
                        i < k <= n,
                        n == self.metadata.finalizers@.len(),
                        out@.len() == k - 1,
                        forall|j: int| 0 <= j < i ==> out@[j]@ == self.metadata.finalizers@[j]@,
                        forall|j: int| i <= j < k - 1 ==> out@[j]@ == self.metadata.finalizers@[j + 1]@,
                        self.metadata.finalizers@[i as int]@ == WORKER_GROUP_FINALIZER@,
                        forall|j: int|
                            0 <= j < i ==> self.metadata.finalizers@[j]@ != WORKER_GROUP_FINALIZER@,
                    decreases n - k,
                {
                    out.push(self.metadata.finalizers[k].clone());
                    k += 1;
                }
                proof {
                    assert(string_views(out@) =~= string_views(self.metadata.finalizers@).remove(
                        i as int,
                    ));
                }
                return out;
            }
            out.push(self.metadata.finalizers[i].clone());
            i += 1;
        }
        out
    }

    /// The apply path: execute the planned task if one was planned, and only
    /// reschedule otherwise. Always concludes with the fixed requeue delay;
    /// the error cases live in the task's execution, not in planning.
    pub fn reconcile(self) -> (r: Result<ApplyStep, WorkerGroupError>)
        ensures
            r is Ok,
            planned_task(self) matches Some(t) ==> (r->Ok_0 matches ApplyStep::Execute(task)
                && task.task == t && task.worker_group == self),
            planned_task(self) is None ==> (r->Ok_0 matches ApplyStep::Requeue(a)
                && a.requeue_after_seconds == REQUEUE_INTERVAL_SECONDS),
    {
        match ReconcileWorkerGroupTask::from_worker_group(self) {
            Ok(Some(task)) => Ok(ApplyStep::Execute(task)),
            Ok(None) => Ok(ApplyStep::Requeue(Action::requeue(REQUEUE_INTERVAL_SECONDS))),
            Err(e) => Err(e),
        }
    }

    /// The cleanup path: deliberately no explicit teardown of owned workers —
    /// they are removed by the cluster's garbage collector through the owner
    /// references — so cleanup only reschedules.
    pub fn cleanup(&self) -> (r: Result<Action, WorkerGroupError>)
        ensures
            r matches Ok(a) && a.requeue_after_seconds == REQUEUE_INTERVAL_SECONDS,
    {
        Ok(Action::requeue(REQUEUE_INTERVAL_SECONDS))
    }
}

/// What the apply path decided: a task to execute, or only the steady-state
/// requeue.
pub enum ApplyStep {
    /// Execute this planned corrective task.
    Execute(ReconcileWorkerGroupTask),
    /// Steady state: nothing to correct before the next scheduled re-check.
    Requeue(Action),
}

/// The error policy applied on any reconciliation error: count the failure
/// under the error's kind and the resource's own label, and requeue after the
/// fixed delay. There is no backoff and no retry cap; the loop retries until
/// the condition resolves or the resource is deleted.
pub fn error_policy(worker_group: &WorkerGroup, error: &WorkerGroupError, metrics: &mut Metrics) -> (a:
    Action)
    requires
        old(metrics).wf(),
    ensures
        final(metrics).wf(),
        final(metrics).reconcile_count == old(metrics).reconcile_count,
        failure_counted(
            counter_views(old(metrics).failures@),
            counter_views(final(metrics).failures@),
            "worker_group_error"@,
            "worker_group__"@ + worker_group.spec_name_any(),
        ),
        a.requeue_after_seconds == REQUEUE_INTERVAL_SECONDS,
{
    let error_label = error.metric_label();
    let resource_label = worker_group.metric_label();
    metrics.set_failure(error_label, resource_label);
    Action::requeue(REQUEUE_INTERVAL_SECONDS)
}

} // verus!
