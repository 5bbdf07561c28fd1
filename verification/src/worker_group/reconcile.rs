//! Task planning for the `WorkerGroup` reconciler: diff desired against
//! observed state and select at most one corrective task.

use std::sync::Arc;

use vstd::prelude::*;

use crate::worker_group::crd::WorkerGroup;
use crate::worker_group::error::WorkerGroupError;
use crate::worker_group::worker::Worker;

verus! {

/// The reason under which a lifecycle event is published.
#[derive(PartialEq, Eq, Structural, Clone, Copy, Debug)]
pub enum EventReason {
    /// A worker was created.
    WorkerCreated,
}

impl EventReason {
    /// The reason as the string published to the event stream.
    pub fn as_string(&self) -> (s: String)
        ensures
            s@ == "WorkerCreated"@,
    {
        "WorkerCreated".to_owned()
    }
}

/// The closed set of corrective tasks a reconciliation can plan.
#[derive(PartialEq, Eq, Structural, Clone, Copy, Debug)]
pub enum Tasks {
    /// The observed instance count is below the desired replica count: a new
    /// worker must be created.
    CreateWorker,
}

/// The instance count the planner diffs against: the observed count when a
/// status has been written, and -1 for a brand-new resource without one, so
/// that the first reconciliation always creates a worker.
pub open spec fn observed_instances(wg: WorkerGroup) -> int {
    if wg.status is Some {
        wg.status->0.instances as int
    } else {
        -1
    }
}

/// The planning policy: one `CreateWorker` task when the desired replica
/// count exceeds the observed instance count, and nothing otherwise. At most
/// one task is planned per reconciliation, however large the deficit; this
/// throttles worker creation to one per reconciliation interval.
pub open spec fn planned_task(wg: WorkerGroup) -> Option<Tasks> {
    if wg.spec.replicas as int > observed_instances(wg) {
        Some(Tasks::CreateWorker)
    } else {
        None
    }
}

/// A planned reconciliation: the resource together with the one corrective
/// task selected for it.
#[derive(Debug, Clone)]
pub struct ReconcileWorkerGroupTask {
    /// The resource being reconciled.
    pub worker_group: WorkerGroup,
    /// The corrective task to run.
    pub task: Tasks,
}

impl ReconcileWorkerGroupTask {
    /// Determine whether a task should be run, from the state of the
    /// `WorkerGroup`: exactly when the desired replica count exceeds the
    /// observed instance count (-1 when no status exists yet).
    pub fn from_worker_group(worker_group: WorkerGroup) -> (r: Result<
        Option<ReconcileWorkerGroupTask>,
        WorkerGroupError,
    >)
        ensures
            r is Ok,
            r->Ok_0 is Some <==> planned_task(worker_group) is Some,
            r->Ok_0 matches Some(t) ==> t.task == Tasks::CreateWorker && t.worker_group
                == worker_group,
    {
        let observed: i32 = match &worker_group.status {
            Some(status) => status.instances,
            None => -1,
        };
        if worker_group.spec.replicas > observed {
            return Ok(Some(Self::new(worker_group, Tasks::CreateWorker)));
        }
        Ok(None)
    }

    /// Bundle a resource and a selected task.
    pub fn new(worker_group: WorkerGroup, task: Tasks) -> (t: ReconcileWorkerGroupTask)
        ensures
            t.worker_group == worker_group,
            t.task == task,
    {
        ReconcileWorkerGroupTask { worker_group, task }
    }

    /// The worker to be created: it carries the owning group's name and runs
    /// the group's image.
    pub fn into_worker(self) -> (w: Worker)
        ensures
            w.name@ == self.worker_group.spec_name_any(),
            w.image@ == self.worker_group.spec.image@,
            w.worker_group == self.worker_group,
    {
        let name = self.worker_group.name_any();
        let image = self.worker_group.spec.image.clone();
        Worker::new(name, image, Arc::new(self.worker_group))
    }
}

/// For every `WorkerGroup` with a non-negative desired replica count and no
/// observed status, planning yields `CreateWorker`: the absent status counts
/// as an instance count of -1, which forces a create on the first
/// reconciliation of a brand-new resource.
pub proof fn lemma_plan_creates_on_absent_status(wg: WorkerGroup)
    requires
        wg.status is None,
        wg.spec.replicas >= 0,
    ensures
        planned_task(wg) == Some(Tasks::CreateWorker),
{
}

/// For every `WorkerGroup` whose observed instance count has reached the
/// desired replica count, planning yields no task: the reconciliation is at
/// steady state and the caller only reschedules.
pub proof fn lemma_plan_rests_at_steady_state(wg: WorkerGroup)
    requires
        wg.status is Some,
        wg.status->0.instances >= wg.spec.replicas,
    ensures
        planned_task(wg) is None,
{
}

} // verus!
