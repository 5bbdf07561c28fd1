use probelet_operator::worker_group::crd::{
    ObjectMeta, WorkerGroup, WorkerGroupSpec, WorkerGroupStatus, WorkerInstanceName,
};
use probelet_operator::worker_group::reconcile::{ReconcileWorkerGroupTask, Tasks};

fn group(replicas: i32, status: Option<WorkerGroupStatus>) -> WorkerGroup {
    WorkerGroup {
        metadata: ObjectMeta {
            name: Some("test".to_string()),
            namespace: Some("default".to_string()),
            uid: Some("uid-1".to_string()),
            deletion_timestamp: None,
            finalizers: Vec::new(),
        },
        spec: WorkerGroupSpec {
            replicas,
            image: "nginx".to_string(),
        },
        status,
    }
}

fn status_with_instances(instances: i32) -> WorkerGroupStatus {
    WorkerGroupStatus {
        instance_names: vec![WorkerInstanceName::try_from("test".to_string()).unwrap()],
        instances,
        instances_reported_state: Vec::new(),
        ready_instances: instances,
    }
}

#[test]
fn absent_status_plans_a_create() {
    let planned = ReconcileWorkerGroupTask::from_worker_group(group(1, None))
        .unwrap()
        .expect("a task must be planned for a brand-new resource");
    assert!(matches!(planned.task, Tasks::CreateWorker));
}

#[test]
fn zero_replicas_with_absent_status_still_plans_a_create() {
    // Absent status counts as -1 observed instances, so even 0 desired
    // replicas exceeds it.
    let planned = ReconcileWorkerGroupTask::from_worker_group(group(0, None)).unwrap();
    assert!(planned.is_some());
}

#[test]
fn deficit_plans_a_create() {
    let planned =
        ReconcileWorkerGroupTask::from_worker_group(group(1, Some(status_with_instances(0))))
            .unwrap();
    assert!(planned.is_some());
}

#[test]
fn matching_instances_plan_nothing() {
    let planned =
        ReconcileWorkerGroupTask::from_worker_group(group(1, Some(status_with_instances(1))))
            .unwrap();
    assert!(planned.is_none());
}

#[test]
fn surplus_instances_plan_nothing() {
    let planned =
        ReconcileWorkerGroupTask::from_worker_group(group(1, Some(status_with_instances(2))))
            .unwrap();
    assert!(planned.is_none());
}

#[test]
fn planned_task_keeps_the_resource() {
    let planned = ReconcileWorkerGroupTask::from_worker_group(group(1, None))
        .unwrap()
        .unwrap();
    assert_eq!(planned.worker_group.spec.image, "nginx");
    let worker = planned.into_worker();
    assert_eq!(worker.name, "test");
    assert_eq!(worker.image, "nginx");
}
