//! The `WorkerGroup` resource schema: desired state, observed state, and the
//! validated worker instance name.

use vstd::prelude::*;
use vstd::string::StrSliceExecFns;
use vstd::string::StringExecFns;

verus! {

/// A link from a dependent object to the resource that created it, used by
/// the cluster's garbage collector for cascading deletion.
#[derive(Debug, Clone)]
pub struct OwnerReference {
    /// The owning resource's API version.
    pub api_version: String,
    /// The owning resource's kind.
    pub kind: String,
    /// The owning resource's name.
    pub name: String,
    /// The owning resource's unique id.
    pub uid: String,
    /// Whether the owner is the managing controller.
    pub controller: Option<bool>,
    /// Whether the owner blocks its own deletion until this object is gone.
    pub block_owner_deletion: Option<bool>,
}

/// A reference to an object in the cluster, as carried by published events.
#[derive(Debug, Clone)]
pub struct ObjectRef {
    /// The referenced resource's API version.
    pub api_version: String,
    /// The referenced resource's kind.
    pub kind: String,
    /// The referenced resource's name.
    pub name: Option<String>,
    /// The referenced resource's namespace.
    pub namespace: Option<String>,
    /// The referenced resource's unique id.
    pub uid: Option<String>,
}

/// An element-wise copy of an optional string.
fn clone_opt_string(s: &Option<String>) -> (r: Option<String>)
    ensures
        r is Some <==> s is Some,
        r matches Some(v) ==> v@ == (*s)->0@,
{
    match s {
        Some(v) => Some(v.clone()),
        None => None,
    }
}

/// Desired state of a `WorkerGroup`.
#[derive(Debug, Clone)]
pub struct WorkerGroupSpec {
    /// The number of replicas to create.
    /// The max is `1` for the first version of the resource; this is a
    /// convention, not validated.
    pub replicas: i32,
    /// The container image to use for the group's workers.
    pub image: String,
}

/// A validated identifier for a single worker instance: non-empty, at most 63
/// characters, and free of `.`, `/` and `%`. Constructing one through
/// `try_from` is the only way to obtain a value, so every holder carries an
/// already-valid name.
#[derive(Debug, Clone)]
pub struct WorkerInstanceName(pub String);

/// The naming rule for a worker instance, over the name's characters.
pub open spec fn valid_instance_name(s: Seq<char>) -> bool {
    &&& 1 <= s.len() <= 63
    &&& forall|i: int| 0 <= i < s.len() ==> s[i] != '.' && s[i] != '/' && s[i] != '%'
}

impl View for WorkerInstanceName {
    type V = Seq<char>;

    open spec fn view(&self) -> Seq<char> {
        self.0@
    }
}

impl WorkerInstanceName {
    /// Fallible conversion from a raw string. Succeeds exactly on non-empty
    /// strings of at most 63 characters that contain none of `.`, `/`, `%`,
    /// and then round-trips the original string.
    pub fn try_from(value: String) -> (r: Result<WorkerInstanceName, String>)
        ensures
            r is Ok <==> valid_instance_name(value@),
            r matches Ok(n) ==> n@ == value@,
            value@.len() == 0 ==> (r matches Err(m) && m@ == "Worker instance name cannot be empty"@),
            value@.len() > 63 ==> (r matches Err(m) && m@
                == "Worker instance name cannot be longer than 63 characters"@),
            (1 <= value@.len() <= 63 && !valid_instance_name(value@)) ==> (r matches Err(m) && m@
                == "Worker instance name cannot contain . or / or %"@),
    {
        let n = value.as_str().unicode_len();
        if n == 0 {
            return Err("Worker instance name cannot be empty".to_owned());
        }
        if n > 63 {
            return Err("Worker instance name cannot be longer than 63 characters".to_owned());
        }
        let mut i: usize = 0;
        while i < n
            invariant
                i <= n,
                1 <= n <= 63,
                n == value@.len(),
                forall|j: int| 0 <= j < i ==> value@[j] != '.' && value@[j] != '/' && value@[j]
                    != '%',
            decreases n - i,
        {
            let c = value.as_str().get_char(i);
            if c == '.' || c == '/' || c == '%' {
                return Err("Worker instance name cannot contain . or / or %".to_owned());
            }
            i += 1;
        }
        Ok(WorkerInstanceName(value))
    }

    /// The validated name as a borrowed string.
    pub fn as_str(&self) -> (s: &str)
        ensures
            s@ == self@,
    {
        self.0.as_str()
    }

    /// The validated name as an owned string.
    pub fn as_string(&self) -> (s: String)
        ensures
            s@ == self@,
    {
        self.0.clone()
    }
}

/// The reported readiness of one worker instance.
#[derive(PartialEq, Eq, Structural, Clone, Copy, Debug)]
pub enum WorkerGroupInstanceStatus {
    /// The instance is ready.
    Ready,
    /// The instance is not ready.
    NotReady,
}

/// The per-instance state last reported for a worker instance.
#[derive(Debug, Clone)]
pub struct WorkerGroupReportedInstanceState {
    /// The state of the instance, `Ready` or `NotReady`.
    pub status: WorkerGroupInstanceStatus,
    /// The last updated time of the instance.
    pub last_updated: String,
}

/// Observed state of a `WorkerGroup`, absent until the first reconciliation
/// writes it.
#[derive(Debug, Clone)]
pub struct WorkerGroupStatus {
    /// Names of the running instances.
    pub instance_names: Vec<WorkerInstanceName>,
    /// Number of instances.
    pub instances: i32,
    /// Reported state of each instance, keyed by instance name; the keys are
    /// unique and form a subset of `instance_names`.
    pub instances_reported_state: Vec<(WorkerInstanceName, WorkerGroupReportedInstanceState)>,
    /// Number of ready instances.
    pub ready_instances: i32,
}

impl WorkerGroupStatus {
    /// Whether `name` is one of the instance names.
    pub open spec fn names_contain(&self, name: Seq<char>) -> bool {
        exists|k: int| 0 <= k < self.instance_names@.len() && self.instance_names@[k]@ == name
    }

    /// The status invariant: reported-state keys are unique and every key is
    /// one of the instance names.
    pub open spec fn well_formed(&self) -> bool {
        &&& forall|i: int, j: int|
            0 <= i < j < self.instances_reported_state@.len()
                ==> self.instances_reported_state@[i].0@ != self.instances_reported_state@[j].0@
        &&& forall|i: int|
            0 <= i < self.instances_reported_state@.len() ==> self.names_contain(
                (#[trigger] self.instances_reported_state@[i]).0@,
            )
    }
}

/// The metadata identifying a resource within the cluster.
#[derive(Debug, Clone)]
pub struct ObjectMeta {
    /// The resource's name, unique within its namespace.
    pub name: Option<String>,
    /// The namespace the resource lives in.
    pub namespace: Option<String>,
    /// The unique id the cluster assigned at creation.
    pub uid: Option<String>,
    /// Set by the cluster when the resource is marked for deletion.
    pub deletion_timestamp: Option<String>,
    /// The finalizer markers that block final removal.
    pub finalizers: Vec<String>,
}

/// The `WorkerGroup` resource: a group of worker instances (pods) where
/// probes are going to be executed.
#[derive(Debug, Clone)]
pub struct WorkerGroup {
    /// Identity and lifecycle metadata.
    pub metadata: ObjectMeta,
    /// Desired state.
    pub spec: WorkerGroupSpec,
    /// Observed state, absent until first written.
    pub status: Option<WorkerGroupStatus>,
}

impl WorkerGroup {
    /// The resource invariant: when observed state is present it is
    /// well-formed.
    pub open spec fn well_formed(&self) -> bool {
        self.status is Some ==> self.status->0.well_formed()
    }

    /// The resource's name, or the empty string when unset.
    pub open spec fn spec_name_any(&self) -> Seq<char> {
        if self.metadata.name is Some {
            self.metadata.name->0@
        } else {
            Seq::empty()
        }
    }

    /// The resource's name, or the empty string when unset.
    pub fn name_any(&self) -> (n: String)
        ensures
            n@ == self.spec_name_any(),
    {
        match &self.metadata.name {
            Some(n) => n.clone(),
            None => String::new(),
        }
    }

    /// The default annotation set attached to every resource created under
    /// this `WorkerGroup`: the operator version stamp.
    pub fn default_annotations(&self) -> (annotations: Vec<(String, String)>)
        ensures
            annotations@.len() == 1,
            annotations@[0].0@ == "probelet.dev/operatorVersion"@,
            annotations@[0].1@ == "0.1.0"@,
    {
        let mut annotations: Vec<(String, String)> = Vec::new();
        annotations.push(("probelet.dev/operatorVersion".to_owned(), "0.1.0".to_owned()));
        annotations
    }

    /// The `WorkerGroup` API version on the wire.
    pub fn api_version() -> (s: &'static str)
        ensures
            s@ == "probelet.dev/v0"@,
    {
        "probelet.dev/v0"
    }

    /// The `WorkerGroup` kind on the wire.
    pub fn kind() -> (s: &'static str)
        ensures
            s@ == "WorkerGroup"@,
    {
        "WorkerGroup"
    }

    /// The owner reference that dependents of this `WorkerGroup` carry, or
    /// nothing when the resource has no name or no uid yet.
    pub fn owner_ref(&self) -> (r: Option<OwnerReference>)
        ensures
            r is Some <==> (self.metadata.name is Some && self.metadata.uid is Some),
            r matches Some(o) ==> {
                &&& o.api_version@ == "probelet.dev/v0"@
                &&& o.kind@ == "WorkerGroup"@
                &&& o.name@ == self.metadata.name->0@
                &&& o.uid@ == self.metadata.uid->0@
                &&& o.controller is None
                &&& o.block_owner_deletion is None
            },
    {
        match (&self.metadata.name, &self.metadata.uid) {
            (Some(name), Some(uid)) => Some(
                OwnerReference {
                    api_version: Self::api_version().to_owned(),
                    kind: Self::kind().to_owned(),
                    name: name.clone(),
                    uid: uid.clone(),
                    controller: None,
                    block_owner_deletion: None,
                },
            ),
            _ => None,
        }
    }

    /// The event-stream reference to this `WorkerGroup`.
    pub fn object_ref(&self) -> (r: ObjectRef)
        ensures
            r.api_version@ == "probelet.dev/v0"@,
            r.kind@ == "WorkerGroup"@,
            r.name is Some <==> self.metadata.name is Some,
            r.name matches Some(n) ==> n@ == self.metadata.name->0@,
            r.namespace is Some <==> self.metadata.namespace is Some,
            r.namespace matches Some(n) ==> n@ == self.metadata.namespace->0@,
            r.uid is Some <==> self.metadata.uid is Some,
            r.uid matches Some(u) ==> u@ == self.metadata.uid->0@,
    {
        ObjectRef {
            api_version: Self::api_version().to_owned(),
            kind: Self::kind().to_owned(),
            name: clone_opt_string(&self.metadata.name),
            namespace: clone_opt_string(&self.metadata.namespace),
            uid: clone_opt_string(&self.metadata.uid),
        }
    }

    /// The label under which this resource's reconcile failures are counted.
    pub fn metric_label(&self) -> (l: String)
        ensures
            l@ == "worker_group__"@ + self.spec_name_any(),
    {
        let name = self.name_any();
        "worker_group__".to_owned().concat(name.as_str())
    }

    /// The default label set attached to every resource created under this
    /// `WorkerGroup`: the owning group's name, for ownership tracing.
    pub fn default_labels(&self) -> (labels: Vec<(String, String)>)
        ensures
            labels@.len() == 1,
            labels@[0].0@ == "probelet.dev/workerGroupName"@,
            labels@[0].1@ == self.spec_name_any(),
    {
        let mut labels: Vec<(String, String)> = Vec::new();
        labels.push(("probelet.dev/workerGroupName".to_owned(), self.name_any()));
        labels
    }
}

} // verus!
