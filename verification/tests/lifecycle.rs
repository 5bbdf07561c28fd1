use std::sync::Arc;

use probelet_operator::worker_group::crd::{ObjectMeta, WorkerGroup, WorkerGroupSpec};
use probelet_operator::worker_group::error::WorkerGroupError;
use probelet_operator::worker_group::worker::{EventType, Worker};

fn test_group() -> WorkerGroup {
    WorkerGroup {
        metadata: ObjectMeta {
            name: Some("test".to_string()),
            namespace: None,
            uid: Some("test".to_string()),
            deletion_timestamp: None,
            finalizers: Vec::new(),
        },
        spec: WorkerGroupSpec {
            replicas: 1,
            image: "test".to_string(),
        },
        status: None,
    }
}

fn test_worker() -> Worker {
    Worker::new("test".to_string(), "test".to_string(), Arc::new(test_group()))
}

#[test]
fn test_pod() {
    let worker = test_worker();
    let pod = worker.pod();

    assert_eq!(pod.metadata.name.as_deref(), Some("test"));
    let owners = pod.metadata.owner_references.as_ref().unwrap();
    assert_eq!(owners.len(), 1);
    assert_eq!(owners[0].api_version, "probelet.dev/v0");
    assert_eq!(owners[0].kind, "WorkerGroup");
    assert_eq!(owners[0].name, "test");
    assert_eq!(owners[0].uid, "test");
    assert_eq!(pod.metadata.deletion_grace_period_seconds, Some(30));

    let labels = pod.metadata.labels.as_ref().unwrap();
    assert_eq!(
        labels.as_slice(),
        &[
            (
                "probelet.dev/workerGroupName".to_string(),
                "test".to_string()
            ),
            ("probelet.dev/workerName".to_string(), "test".to_string()),
        ]
    );

    let spec = pod.spec.as_ref().unwrap();
    assert_eq!(spec.restart_policy.as_deref(), Some("Always"));
    assert_eq!(spec.containers.len(), 1);
    let container = &spec.containers[0];
    assert_eq!(container.name, "worker");
    assert_eq!(container.image.as_deref(), Some("test"));
    assert_eq!(
        container.command.as_ref().unwrap().as_slice(),
        &["/bin/sh".to_string(), "-c".to_string()]
    );
    assert_eq!(
        container.args.as_ref().unwrap().as_slice(),
        &["sleep infinity".to_string()]
    );
}

#[test]
fn pod_spec_annotation_is_the_json_encoding() {
    let worker = test_worker();
    let pod = worker.pod();
    let annotations = pod.metadata.annotations.as_ref().unwrap();
    assert_eq!(annotations.len(), 2);
    assert_eq!(annotations[0].0, "probelet.dev/operatorVersion");
    assert_eq!(annotations[0].1, "0.1.0");
    assert_eq!(annotations[1].0, "probelet.dev/podSpec");

    // The annotation must hold exactly what serde_json produces for the
    // equivalent k8s pod specification, not some echo of the inputs.
    let expected_spec = k8s_openapi::api::core::v1::PodSpec {
        containers: vec![k8s_openapi::api::core::v1::Container {
            name: "worker".to_string(),
            image: Some("test".to_string()),
            command: Some(vec!["/bin/sh".to_string(), "-c".to_string()]),
            args: Some(vec!["sleep infinity".to_string()]),
            ..Default::default()
        }],
        restart_policy: Some("Always".to_string()),
        ..Default::default()
    };
    let expected = serde_json::to_string(&expected_spec).unwrap();
    assert_eq!(annotations[1].1, expected);
    assert_ne!(annotations[1].1, "test");
}

#[test]
fn pod_building_is_deterministic() {
    let first = test_worker().pod();
    let second = test_worker().pod();
    assert_eq!(first.metadata.labels, second.metadata.labels);
    assert_eq!(first.metadata.annotations, second.metadata.annotations);
    let first_owners = first.metadata.owner_references.as_ref().unwrap();
    let second_owners = second.metadata.owner_references.as_ref().unwrap();
    let a = &first_owners[0];
    let b = &second_owners[0];
    assert_eq!(a.uid, b.uid);
    assert_eq!(a.name, b.name);
    assert_eq!(
        first.spec.as_ref().unwrap().containers[0].image,
        second.spec.as_ref().unwrap().containers[0].image
    );
}

#[test]
fn created_event_references_the_group() {
    let worker = test_worker();
    let event = worker.created_event();
    assert_eq!(event.type_, EventType::Normal);
    assert_eq!(event.reason, "WorkerCreated");
    assert_eq!(event.note.as_deref(), Some("Worker Created"));
    assert_eq!(event.action, "WorkerCreated");
    let secondary = event.secondary.unwrap();
    assert_eq!(secondary.api_version, "probelet.dev/v0");
    assert_eq!(secondary.kind, "WorkerGroup");
    assert_eq!(secondary.name.as_deref(), Some("test"));
    assert_eq!(secondary.uid.as_deref(), Some("test"));
}

#[test]
fn pod_object_ref_has_no_uid_before_submission() {
    let worker = test_worker();
    let pod = worker.pod();
    let reference = pod.object_ref();
    assert_eq!(reference.api_version, "v1");
    assert_eq!(reference.kind, "Pod");
    assert_eq!(reference.name.as_deref(), Some("test"));
    assert!(reference.namespace.is_none());
    assert!(reference.uid.is_none());
}

#[test]
fn owner_ref_needs_a_uid() {
    let mut group = test_group();
    group.metadata.uid = None;
    assert!(group.owner_ref().is_none());
}

#[test]
fn failed_submission_reports_the_worker() {
    let worker = test_worker();
    let result = worker.create_result(Err("api unavailable".to_string()), None);
    match result {
        Err(WorkerGroupError::Kube { message, source }) => {
            assert_eq!(message, "Failed to create worker pod test");
            assert_eq!(source, "api unavailable");
        }
        _ => panic!("a failed submission must surface a cluster-API error"),
    }
}

#[test]
fn failed_publication_is_an_error_despite_the_existing_pod() {
    let worker = test_worker();
    let result = worker.create_result(Ok(()), Some(Err("event stream down".to_string())));
    match result {
        Err(WorkerGroupError::Kube { message, source }) => {
            assert_eq!(message, "Failed to publish event for worker test");
            assert_eq!(source, "event stream down");
        }
        _ => panic!("a failed publication must not be reported as success"),
    }
}

#[test]
fn full_success_requeues_after_five_minutes() {
    let worker = test_worker();
    let action = worker.create_result(Ok(()), Some(Ok(()))).unwrap();
    assert_eq!(action.requeue_after_seconds, 300);
}
