use probelet_operator::worker_group::crd::WorkerInstanceName;

#[test]
fn valid_name_round_trips() {
    let name = WorkerInstanceName::try_from("worker-1".to_string()).unwrap();
    assert_eq!(name.as_str(), "worker-1");
    assert_eq!(name.as_string(), "worker-1".to_string());
}

#[test]
fn sixty_three_characters_is_accepted() {
    let raw: String = "a".repeat(63);
    let name = WorkerInstanceName::try_from(raw.clone()).unwrap();
    assert_eq!(name.as_string(), raw);
}

#[test]
fn empty_name_is_rejected() {
    let err = WorkerInstanceName::try_from(String::new()).unwrap_err();
    assert_eq!(err, "Worker instance name cannot be empty");
}

#[test]
fn sixty_four_characters_is_rejected() {
    let raw: String = "a".repeat(64);
    let err = WorkerInstanceName::try_from(raw).unwrap_err();
    assert_eq!(
        err,
        "Worker instance name cannot be longer than 63 characters"
    );
}

#[test]
fn dot_is_rejected() {
    let err = WorkerInstanceName::try_from("a.b".to_string()).unwrap_err();
    assert_eq!(err, "Worker instance name cannot contain . or / or %");
}

#[test]
fn slash_is_rejected() {
    let err = WorkerInstanceName::try_from("a/b".to_string()).unwrap_err();
    assert_eq!(err, "Worker instance name cannot contain . or / or %");
}

#[test]
fn percent_is_rejected() {
    let err = WorkerInstanceName::try_from("a%b".to_string()).unwrap_err();
    assert_eq!(err, "Worker instance name cannot contain . or / or %");
}

#[test]
fn length_is_counted_in_characters() {
    // 63 two-byte characters: more than 63 bytes, but still a valid name.
    let raw: String = "é".repeat(63);
    assert!(raw.len() > 63);
    let name = WorkerInstanceName::try_from(raw.clone()).unwrap();
    assert_eq!(name.as_string(), raw);
}
