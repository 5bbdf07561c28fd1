//! The worker lifecycle: building a worker pod specification from a
//! `WorkerGroup` and an instance name, and the outcome protocol of submitting
//! it and publishing the lifecycle event.

use std::sync::Arc;

use vstd::prelude::*;
use vstd::string::StringExecFns;

use crate::worker_group::crd::{ObjectRef, WorkerGroup};
use crate::worker_group::crd::OwnerReference;
use crate::worker_group::error::WorkerGroupError;
use crate::worker_group::REQUEUE_INTERVAL_SECONDS;
use crate::Action;

verus! {

/// How long the cluster waits before force-killing a worker pod marked for
/// deletion, in seconds.
pub const WORKER_GROUP_DEFAULT_DELETION_GRACE_PERIOD_SECONDS: i64 = 30;

/// A single container of a worker pod specification.
#[derive(Debug, Clone)]
pub struct WorkerContainer {
    /// The container's name.
    pub name: String,
    /// The image the container runs.
    pub image: Option<String>,
    /// The entrypoint command.
    pub command: Option<Vec<String>>,
    /// The arguments to the entrypoint.
    pub args: Option<Vec<String>>,
}

/// The pod-level part of a worker pod specification.
#[derive(Debug, Clone)]
pub struct WorkerPodSpec {
    /// The pod's containers.
    pub containers: Vec<WorkerContainer>,
    /// The pod's restart policy.
    pub restart_policy: Option<String>,
}

/// The metadata of a worker pod specification.
#[derive(Debug, Clone)]
pub struct WorkerPodMeta {
    /// The pod's name.
    pub name: Option<String>,
    /// The owners whose deletion cascades to this pod.
    pub owner_references: Option<Vec<OwnerReference>>,
    /// The pod's annotations, in insertion order.
    pub annotations: Option<Vec<(String, String)>>,
    /// How long the cluster waits before force-killing the pod on deletion.
    pub deletion_grace_period_seconds: Option<i64>,
    /// The pod's labels, in insertion order.
    pub labels: Option<Vec<(String, String)>>,
}

/// A worker pod specification as submitted to the cluster API.
#[derive(Debug, Clone)]
pub struct WorkerPod {
    /// Identity, ownership, labels and annotations.
    pub metadata: WorkerPodMeta,
    /// The pod-level specification.
    pub spec: Option<WorkerPodSpec>,
}

/// The class of a published event.
#[derive(PartialEq, Eq, Structural, Clone, Copy, Debug)]
pub enum EventType {
    /// An informational event.
    Normal,
    /// A warning event.
    Warning,
}

/// An at-most-informational notification published to the cluster's event
/// stream.
#[derive(Debug, Clone)]
pub struct EventRecord {
    /// The event's class.
    pub type_: EventType,
    /// The machine-readable reason.
    pub reason: String,
    /// The human-readable note.
    pub note: Option<String>,
    /// The action the event reports.
    pub action: String,
    /// A secondary object the event concerns.
    pub secondary: Option<ObjectRef>,
}

/// An ephemeral value object representing one corrective creation: the
/// worker's name, its image, and the owning `WorkerGroup`. It is derived at
/// task-execution time; its materialized pod specification is what the
/// cluster stores.
#[derive(Debug, Clone)]
pub struct Worker {
    /// The name of the worker pod to create.
    pub name: String,
    /// The container image the worker runs.
    pub image: String,
    /// The `WorkerGroup` that owns this worker.
    pub worker_group: Arc<WorkerGroup>,
}

/// What `serde_json::to_string` returns for the minimal single-container pod
/// specification assembled from these parts; a function of the parts alone.
pub uninterp spec fn pod_spec_json_of(
    container_name: Seq<char>,
    image: Seq<char>,
    command: Seq<Seq<char>>,
    args: Seq<Seq<char>>,
    restart_policy: Seq<char>,
) -> Seq<char>;

/// Relies on `serde_json::to_string` over `k8s_openapi`'s `PodSpec`: the JSON
/// encoding of a value is a function of the value alone, so the result is
/// determined by the parts the specification is assembled from. An encoding
/// error yields the empty string rather than a panic.
#[verifier::external_body]
fn pod_spec_to_json(
    container_name: &str,
    image: &str,
    command: &Vec<String>,
    args: &Vec<String>,
    restart_policy: &str,
) -> (r: String)
    ensures
        r@ == pod_spec_json_of(
            container_name@,
            image@,
            command.deep_view(),
            args.deep_view(),
            restart_policy@,
        ),
{
    let spec = k8s_openapi::api::core::v1::PodSpec {
        containers: vec![k8s_openapi::api::core::v1::Container {
            name: container_name.to_string(),
            image: Some(image.to_string()),
            command: Some(command.clone()),
            args: Some(args.clone()),
            ..Default::default()
        }],
        restart_policy: Some(restart_policy.to_string()),
        ..Default::default()
    };
    serde_json::to_string(&spec).unwrap_or_default()
}

/// Exactly the pod that `Worker::pod` builds for `w`: a single long-running
/// container of the requested image, owned by the source `WorkerGroup`,
/// stamped with the default labels and annotations plus the worker name
/// label, restarting always, with a 30-second deletion grace period.
pub open spec fn is_built_pod(w: Worker, p: WorkerPod) -> bool {
    &&& p.metadata.name matches Some(n) && n@ == w.name@
    &&& p.metadata.owner_references matches Some(refs) && refs@.len() == 1 && {
        let o = refs@[0];
        &&& o.api_version@ == "probelet.dev/v0"@
        &&& o.kind@ == "WorkerGroup"@
        &&& o.name@ == w.worker_group.metadata.name->0@
        &&& o.uid@ == w.worker_group.metadata.uid->0@
        &&& o.controller is None
        &&& o.block_owner_deletion is None
    }
    &&& p.metadata.annotations matches Some(a) && a.deep_view() =~= seq![
        ("probelet.dev/operatorVersion"@, "0.1.0"@),
        (
            "probelet.dev/podSpec"@,
            pod_spec_json_of(
                "worker"@,
                w.image@,
                seq!["/bin/sh"@, "-c"@],
                seq!["sleep infinity"@],
                "Always"@,
            ),
        ),
    ]
    &&& p.metadata.deletion_grace_period_seconds matches Some(g) && g
        == WORKER_GROUP_DEFAULT_DELETION_GRACE_PERIOD_SECONDS
    &&& p.metadata.labels matches Some(l) && l.deep_view() =~= seq![
        ("probelet.dev/workerGroupName"@, w.worker_group.spec_name_any()),
        ("probelet.dev/workerName"@, w.name@),
    ]
    &&& p.spec matches Some(s) && {
        &&& s.restart_policy matches Some(rp) && rp@ == "Always"@
        &&& s.containers@.len() == 1
        &&& {
            let c = s.containers@[0];
            &&& c.name@ == "worker"@
            &&& c.image matches Some(im) && im@ == w.image@
            &&& c.command matches Some(cmd) && cmd.deep_view() =~= seq!["/bin/sh"@, "-c"@]
            &&& c.args matches Some(ar) && ar.deep_view() =~= seq!["sleep infinity"@]
        }
    }
}

impl Worker {
    /// Bundle a worker name, image and owning group into a `Worker`.
    pub fn new(name: String, image: String, worker_group: Arc<WorkerGroup>) -> (w: Worker)
        ensures
            w.name == name,
            w.image == image,
            w.worker_group == worker_group,
    {
        Worker { name, image, worker_group }
    }

    /// Build the worker's pod specification: a minimal long-running container
    /// (a shell sleeping forever, restarted always), stamped with the owning
    /// group's default labels and annotations plus a worker-name label, an
    /// owner reference to the group for cascading deletion, and a fixed
    /// 30-second deletion grace period.
    pub fn pod(&self) -> (p: WorkerPod)
        requires
            self.worker_group.metadata.name is Some,
            self.worker_group.metadata.uid is Some,
        ensures
            is_built_pod(*self, p),
    {
        let command: Vec<String> = vec!["/bin/sh".to_owned(), "-c".to_owned()];
        let args: Vec<String> = vec!["sleep infinity".to_owned()];
        proof {
            assert(command.deep_view() =~~= seq!["/bin/sh"@, "-c"@]);
            assert(args.deep_view() =~~= seq!["sleep infinity"@]);
        }
        let encoded_spec = pod_spec_to_json("worker", self.image.as_str(), &command, &args, "Always");
        let container = WorkerContainer {
            name: "worker".to_owned(),
            image: Some(self.image.clone()),
            command: Some(command),
            args: Some(args),
        };
        let pod_spec = WorkerPodSpec {
            containers: vec![container],
            restart_policy: Some("Always".to_owned()),
        };
        let mut annotations = self.worker_group.default_annotations();
        annotations.push(("probelet.dev/podSpec".to_owned(), encoded_spec));
        let mut labels = self.worker_group.default_labels();
        labels.push(("probelet.dev/workerName".to_owned(), self.name.clone()));
        let owner = self.worker_group.owner_ref().unwrap();
        WorkerPod {
            metadata: WorkerPodMeta {
                name: Some(self.name.clone()),
                owner_references: Some(vec![owner]),
                annotations: Some(annotations),
                deletion_grace_period_seconds: Some(
                    WORKER_GROUP_DEFAULT_DELETION_GRACE_PERIOD_SECONDS,
                ),
                labels: Some(labels),
            },
            spec: Some(pod_spec),
        }
    }

    /// The `WorkerCreated` event published after a successful creation: an
    /// informational record referencing the owning `WorkerGroup`.
    pub fn created_event(&self) -> (e: EventRecord)
        ensures
            e.type_ == EventType::Normal,
            e.reason@ == "WorkerCreated"@,
            e.note matches Some(n) && n@ == "Worker Created"@,
            e.action@ == "WorkerCreated"@,
            e.secondary matches Some(o) && {
                &&& o.api_version@ == "probelet.dev/v0"@
                &&& o.kind@ == "WorkerGroup"@
                &&& (o.name is Some <==> self.worker_group.metadata.name is Some)
                &&& (o.name matches Some(n) ==> n@ == self.worker_group.metadata.name->0@)
                &&& (o.namespace is Some <==> self.worker_group.metadata.namespace is Some)
                &&& (o.namespace matches Some(n) ==> n@ == self.worker_group.metadata.namespace->0@)
                &&& (o.uid is Some <==> self.worker_group.metadata.uid is Some)
                &&& (o.uid matches Some(u) ==> u@ == self.worker_group.metadata.uid->0@)
            },
    {
        let reason = crate::worker_group::reconcile::EventReason::WorkerCreated;
        EventRecord {
            type_: EventType::Normal,
            reason: reason.as_string(),
            note: Some("Worker Created".to_owned()),
            secondary: Some(self.worker_group.object_ref()),
            action: reason.as_string(),
        }
    }

    /// The outcome of one creation attempt, from the results of the two
    /// remote calls it makes in order: submitting the pod, then publishing
    /// the event (attempted only after a successful submission). A failed
    /// submission is reported as a cluster-API error naming the worker; a
    /// failed publication is likewise an error even though the pod now exists
    /// in the cluster; only full success yields the fixed requeue action.
    pub fn create_result(
        &self,
        submitted: Result<(), String>,
        published: Option<Result<(), String>>,
    ) -> (r: Result<Action, WorkerGroupError>)
        requires
            published is Some <==> submitted is Ok,
        ensures
            submitted matches Err(e) ==> (r matches Err(
                WorkerGroupError::Kube { message, source },
            ) && message@ == "Failed to create worker pod "@ + self.name@ && source == e),
            submitted is Ok ==> (published->0 matches Err(e) ==> (r matches Err(
                WorkerGroupError::Kube { message, source },
            ) && message@ == "Failed to publish event for worker "@ + self.name@ && source == e)),
            (submitted is Ok && published->0 is Ok) ==> (r matches Ok(a)
                && a.requeue_after_seconds == REQUEUE_INTERVAL_SECONDS),
    {
        match submitted {
            Err(e) => Err(
                WorkerGroupError::Kube {
                    message: "Failed to create worker pod ".to_owned().concat(self.name.as_str()),
                    source: e,
                },
            ),
            Ok(_) => match published {
                Some(Ok(_)) => Ok(Action::requeue(REQUEUE_INTERVAL_SECONDS)),
                Some(Err(e)) => Err(
                    WorkerGroupError::Kube {
                        message: "Failed to publish event for worker ".to_owned().concat(
                            self.name.as_str(),
                        ),
                        source: e,
                    },
                ),
                None => vstd::pervasive::unreached(),
            },
        }
    }
}

impl WorkerPod {
    /// The event-stream reference to this pod: built before submission, so it
    /// carries the pod's name but no namespace and no uid yet.
    pub fn object_ref(&self) -> (r: ObjectRef)
        ensures
            r.api_version@ == "v1"@,
            r.kind@ == "Pod"@,
            r.name is Some <==> self.metadata.name is Some,
            r.name matches Some(n) ==> n@ == self.metadata.name->0@,
            r.namespace is None,
            r.uid is None,
    {
        ObjectRef {
            api_version: "v1".to_owned(),
            kind: "Pod".to_owned(),
            name: match &self.metadata.name {
                Some(n) => Some(n.clone()),
                None => None,
            },
            namespace: None,
            uid: None,
        }
    }
}

/// Building a worker pod specification is deterministic: two workers that
/// agree on the instance name, the image, and the owning group's name and
/// uid get pod specifications with identical content — there is no hidden
/// timestamp or random component in the specification.
pub proof fn lemma_pod_build_deterministic(a: Worker, b: Worker, pa: WorkerPod, pb: WorkerPod)
    requires
        is_built_pod(a, pa),
        is_built_pod(b, pb),
        a.name@ == b.name@,
        a.image@ == b.image@,
        a.worker_group.metadata.name == b.worker_group.metadata.name,
        a.worker_group.metadata.uid == b.worker_group.metadata.uid,
    ensures
        pa.metadata.name->0@ == pb.metadata.name->0@,
        pa.metadata.owner_references->0@[0].api_version@ == pb.metadata.owner_references->0@[0].api_version@,
        pa.metadata.owner_references->0@[0].kind@ == pb.metadata.owner_references->0@[0].kind@,
        pa.metadata.owner_references->0@[0].name@ == pb.metadata.owner_references->0@[0].name@,
        pa.metadata.owner_references->0@[0].uid@ == pb.metadata.owner_references->0@[0].uid@,
        pa.metadata.annotations->0.deep_view() == pb.metadata.annotations->0.deep_view(),
        pa.metadata.labels->0.deep_view() == pb.metadata.labels->0.deep_view(),
        pa.spec->0.containers@[0].image->0@ == pb.spec->0.containers@[0].image->0@,
        pa.spec->0.restart_policy->0@ == pb.spec->0.restart_policy->0@,
        pa.metadata.deletion_grace_period_seconds == pb.metadata.deletion_grace_period_seconds,
{
}

/// The produced pod specification carries an owner reference pointing at the
/// source `WorkerGroup`'s uid, a restart-always policy, exactly one container
/// using the requested image, and a deletion grace period of 30 seconds.
pub proof fn lemma_pod_well_formed(w: Worker, p: WorkerPod)
    requires
        is_built_pod(w, p),
    ensures
        p.metadata.owner_references->0@.len() == 1,
        p.metadata.owner_references->0@[0].uid@ == w.worker_group.metadata.uid->0@,
        p.spec->0.restart_policy->0@ == "Always"@,
        p.spec->0.containers@.len() == 1,
        p.spec->0.containers@[0].image->0@ == w.image@,
        p.metadata.deletion_grace_period_seconds == Some(30i64),
{
}

} // verus!
