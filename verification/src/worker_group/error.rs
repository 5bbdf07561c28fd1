//! The error taxonomy surfaced by the `WorkerGroup` reconciler.

use vstd::prelude::*;

verus! {

/// A structured reconciliation error: either the finalizer protocol failed
/// (wrapping whatever error the apply or cleanup path returned), or a
/// cluster-API call failed (wrapping the call's error with a context message).
#[allow(inconsistent_fields)]
#[derive(Debug)]
pub enum WorkerGroupError {
    /// The apply or cleanup path under the finalizer protocol returned an
    /// error.
    Finalizer {
        /// The error that the apply or cleanup path returned.
        source: Box<WorkerGroupError>,
    },
    /// A cluster-API call failed.
    Kube {
        /// A human-readable message identifying what failed.
        message: String,
        /// The underlying cluster-API error, as reported by the cluster.
        source: String,
    },
}

impl WorkerGroupError {
    /// The stable error-kind string under which failures are counted in the
    /// metrics registry.
    pub fn metric_label(&self) -> (l: String)
        ensures
            l@ == "worker_group_error"@,
    {
        "worker_group_error".to_owned()
    }
}

} // verus!
