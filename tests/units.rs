use migration_manager::concurrent::gather;
use migration_manager::error::MigrationError;
use migration_manager::event::Event;
use migration_manager::names::migration_name;
use migration_manager::registry::{Registry, RegistryError};
use migration_manager::runner::{MigrationRun, Operation, Phase, Reply};
use migration_manager::session::{RegistryRun, Request, Response};

fn inconsistent(message: &str) -> MigrationError {
    MigrationError::InconsistentState {
        message: message.to_string(),
    }
}

fn database(message: &str) -> MigrationError {
    MigrationError::Database {
        message: message.to_string(),
    }
}

fn messages(events: &[Event]) -> Vec<String> {
    events.iter().map(|e| e.message()).collect()
}

#[test]
fn names_are_padded_to_four_digits() {
    assert_eq!(migration_name(0), "Migration0000");
    assert_eq!(migration_name(13), "Migration0013");
    assert_eq!(migration_name(120), "Migration0120");
    assert_eq!(migration_name(9999), "Migration9999");
    assert_eq!(migration_name(12345), "Migration12345");
    assert_eq!(migration_name(u32::MAX), "Migration4294967295");
}

#[test]
fn registry_accepts_increasing_ids_with_gaps() {
    let reg = Registry::new(vec![0, 2, 3, 9, 13]).unwrap();
    assert_eq!(reg.len(), 5);
    assert_eq!(reg.id(4), 13);
    assert_eq!(reg.name(4), "Migration0013");
    assert_eq!(reg.name(0), "Migration0000");
}

#[test]
fn registry_may_be_empty() {
    let reg = Registry::new(vec![]).unwrap();
    assert_eq!(reg.len(), 0);
    let mut run = RegistryRun::new(reg);
    assert_eq!(run.next_request(), Some(Request::EnsureDatabase));
    let mut events = Vec::new();
    run = run.receive(Response::DatabaseReady(Ok(())), &mut events);
    assert_eq!(run.next_request(), None);
    assert!(run.into_outcome().unwrap().is_ok());
    assert!(events.is_empty());
}

#[test]
fn registry_refuses_repeated_or_decreasing_ids() {
    assert_eq!(
        Registry::new(vec![0, 2, 2]).unwrap_err(),
        RegistryError::OutOfOrder { index: 2 }
    );
    assert_eq!(
        Registry::new(vec![3, 1, 0]).unwrap_err(),
        RegistryError::OutOfOrder { index: 1 }
    );
}

#[test]
fn event_messages_are_stable() {
    let name = "Migration0004".to_string();
    let events = vec![
        Event::Applying { name: name.clone() },
        Event::Succeeded { name: name.clone() },
        Event::ApplyFailed { name: name.clone() },
        Event::SuccessCheckFailed { name: name.clone() },
        Event::VerifyFailed { name: name.clone() },
    ];
    assert_eq!(
        messages(&events),
        vec![
            "Applying migration: Migration0004",
            "Migration succeeded: Migration0004",
            "Failed to apply migration",
            "Failed migration success check",
            "Failed to verify migration",
        ]
    );
    let levels: Vec<bool> = events.iter().map(|e| e.is_error()).collect();
    assert_eq!(levels, vec![false, false, true, true, true]);
    assert!(events.iter().all(|e| e.migration() == "Migration0004"));
}

#[test]
fn error_messages_and_escalation() {
    let e = inconsistent("InferenceById table is in an invalid state. Please contact TensorZero team.");
    assert_eq!(
        e.message(),
        "InferenceById table is in an invalid state. Please contact TensorZero team."
    );
    assert!(e.requires_intervention());

    let e = database("connection refused");
    assert_eq!(e.message(), "Database error: connection refused");
    assert!(!e.requires_intervention());

    let e = MigrationError::Apply {
        name: "Migration0002".to_string(),
        cause: Box::new(database("syntax error")),
    };
    assert_eq!(
        e.message(),
        "Failed to apply migration Migration0002: Database error: syntax error"
    );
    assert!(!e.requires_intervention());

    let e = MigrationError::Apply {
        name: "Migration0002".to_string(),
        cause: Box::new(inconsistent("broken")),
    };
    assert!(e.requires_intervention());

    let e = MigrationError::Verification {
        name: "Migration0003".to_string(),
    };
    assert_eq!(e.message(), "Migration success check failed: Migration0003");
    assert!(e.requires_intervention());

    let e = MigrationError::Join {
        message: "task panicked".to_string(),
    };
    assert_eq!(e.message(), "Failed to join migration task: task panicked");
    assert!(!e.requires_intervention());
}

/// Drives a run of `Migration0005` with the given replies, in order.
fn drive(bootstrap: bool, replies: Vec<Reply>) -> (MigrationRun, Vec<Event>) {
    let mut run = MigrationRun::new("Migration0005".to_string(), bootstrap);
    let mut events = Vec::new();
    for reply in replies {
        assert!(run.receive(reply, &mut events));
    }
    (run, events)
}

#[test]
fn skip_when_nothing_to_do() {
    let (run, events) = drive(true, vec![Reply::ShouldApply(Ok(false))]);
    assert_eq!(run.next_operation(), None);
    assert!(events.is_empty());
    assert!(!run.into_outcome().unwrap().unwrap());
}

#[test]
fn applicability_error_is_propagated_unchanged() {
    let (run, events) = drive(false, vec![Reply::ShouldApply(Err(inconsistent("bad state")))]);
    assert!(events.is_empty());
    match run.into_outcome().unwrap() {
        Err(MigrationError::InconsistentState { message }) => assert_eq!(message, "bad state"),
        other => panic!("unexpected outcome {other:?}"),
    }
}

#[test]
fn applied_migration_reports_clean_start_only_when_bootstrap() {
    let ok = || {
        vec![
            Reply::ShouldApply(Ok(true)),
            Reply::Applied(Ok(())),
            Reply::Verified(Ok(true)),
        ]
    };
    let (run, events) = drive(true, ok());
    assert_eq!(
        messages(&events),
        vec![
            "Applying migration: Migration0005",
            "Migration succeeded: Migration0005"
        ]
    );
    assert!(run.into_outcome().unwrap().unwrap());
    let (run, _) = drive(false, ok());
    assert!(!run.into_outcome().unwrap().unwrap());
}

#[test]
fn apply_failure_is_wrapped() {
    let (run, events) = drive(
        false,
        vec![
            Reply::ShouldApply(Ok(true)),
            Reply::Applied(Err(database("timeout"))),
        ],
    );
    assert_eq!(
        messages(&events),
        vec!["Applying migration: Migration0005", "Failed to apply migration"]
    );
    match run.into_outcome().unwrap() {
        Err(MigrationError::Apply { name, cause }) => {
            assert_eq!(name, "Migration0005");
            assert!(matches!(*cause, MigrationError::Database { .. }));
        }
        other => panic!("unexpected outcome {other:?}"),
    }
}

#[test]
fn negative_success_check_is_a_verification_error() {
    let (run, events) = drive(
        true,
        vec![
            Reply::ShouldApply(Ok(true)),
            Reply::Applied(Ok(())),
            Reply::Verified(Ok(false)),
        ],
    );
    assert_eq!(
        messages(&events),
        vec![
            "Applying migration: Migration0005",
            "Failed migration success check"
        ]
    );
    assert!(matches!(
        run.into_outcome().unwrap(),
        Err(MigrationError::Verification { .. })
    ));
}

#[test]
fn verify_error_is_propagated() {
    let (run, events) = drive(
        false,
        vec![
            Reply::ShouldApply(Ok(true)),
            Reply::Applied(Ok(())),
            Reply::Verified(Err(database("lost connection"))),
        ],
    );
    assert_eq!(
        messages(&events),
        vec!["Applying migration: Migration0005", "Failed to verify migration"]
    );
    match run.into_outcome().unwrap() {
        Err(MigrationError::Database { message }) => assert_eq!(message, "lost connection"),
        other => panic!("unexpected outcome {other:?}"),
    }
}

#[test]
fn a_reply_to_another_operation_is_not_taken() {
    let mut run = MigrationRun::new("Migration0005".to_string(), false);
    let mut events = Vec::new();
    assert_eq!(run.next_operation(), Some(Operation::ShouldApply));
    assert!(!run.expects(&Reply::Applied(Ok(()))));
    assert!(!run.receive(Reply::Applied(Ok(())), &mut events));
    assert!(matches!(run.phase, Phase::Checking));
    assert!(run.receive(Reply::ShouldApply(Ok(true)), &mut events));
    assert_eq!(run.next_operation(), Some(Operation::Apply));
    assert!(!run.receive(Reply::Verified(Ok(true)), &mut events));
    assert_eq!(run.next_operation(), Some(Operation::Apply));
    assert!(run.into_outcome().is_none());
}

#[test]
fn registry_run_goes_in_order_and_stops_at_first_error() {
    let reg = Registry::new(vec![0, 4, 7]).unwrap();
    let mut run = RegistryRun::new(reg);
    let mut events = Vec::new();
    assert_eq!(run.next_request(), Some(Request::EnsureDatabase));
    run = run.receive(Response::DatabaseReady(Ok(())), &mut events);
    assert_eq!(
        run.next_request(),
        Some(Request::Migration {
            index: 0,
            operation: Operation::ShouldApply
        })
    );
    run = run.receive(Response::Migration(Reply::ShouldApply(Ok(false))), &mut events);
    assert!(!run.clean_start());
    assert_eq!(
        run.next_request(),
        Some(Request::Migration {
            index: 1,
            operation: Operation::ShouldApply
        })
    );
    run = run.receive(
        Response::Migration(Reply::ShouldApply(Err(inconsistent("index 1 is broken")))),
        &mut events,
    );
    assert_eq!(run.next_request(), None);
    assert!(events.is_empty());
    match run.into_outcome().unwrap() {
        Err(MigrationError::InconsistentState { message }) => {
            assert_eq!(message, "index 1 is broken")
        }
        other => panic!("unexpected outcome {other:?}"),
    }
}

#[test]
fn registry_run_fails_when_database_cannot_be_created() {
    let reg = Registry::new(vec![0, 1]).unwrap();
    let mut run = RegistryRun::new(reg);
    let mut events = Vec::new();
    assert!(!run.expects(&Response::Migration(Reply::ShouldApply(Ok(true)))));
    run = run.receive(Response::DatabaseReady(Err(database("permission denied"))), &mut events);
    assert_eq!(run.next_request(), None);
    assert!(matches!(
        run.into_outcome().unwrap(),
        Err(MigrationError::Database { .. })
    ));
}

#[test]
fn registry_run_records_clean_start_from_first_migration() {
    let reg = Registry::new(vec![0, 1]).unwrap();
    let mut run = RegistryRun::new(reg);
    let mut events = Vec::new();
    run = run.receive(Response::DatabaseReady(Ok(())), &mut events);
    for reply in [
        Reply::ShouldApply(Ok(true)),
        Reply::Applied(Ok(())),
        Reply::Verified(Ok(true)),
    ] {
        run = run.receive(Response::Migration(reply), &mut events);
    }
    assert!(run.clean_start());
    for reply in [
        Reply::ShouldApply(Ok(true)),
        Reply::Applied(Ok(())),
        Reply::Verified(Ok(true)),
    ] {
        run = run.receive(Response::Migration(reply), &mut events);
    }
    assert!(run.clean_start());
    assert_eq!(
        messages(&events),
        vec![
            "Applying migration: Migration0000",
            "Migration succeeded: Migration0000",
            "Applying migration: Migration0001",
            "Migration succeeded: Migration0001",
        ]
    );
    assert!(run.into_outcome().unwrap().is_ok());
}

#[test]
fn gather_reports_the_first_failure() {
    assert!(gather(vec![]).is_ok());
    assert!(gather(vec![Ok(()), Ok(())]).is_ok());
    let e = gather(vec![
        Ok(()),
        Err(MigrationError::Join {
            message: "task 1 panicked".to_string(),
        }),
        Err(database("second")),
    ])
    .unwrap_err();
    match e {
        MigrationError::Join { message } => assert_eq!(message, "task 1 panicked"),
        other => panic!("unexpected error {other:?}"),
    }
}
