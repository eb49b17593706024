use acme_svc::domain_error::{DomainError, RepositoryError};
use acme_svc::error::{Classify, Describe, ErrorKind, ErrorSource, Severity};
use acme_svc::event::DomainEvent;
use acme_svc::todo::{Title, Todo, TodoId, TITLE_MAX_CHARS};

const ID: u128 = 0x0190_a1b2_c3d4_7e5f_8a9b_0c1d_2e3f_4a5b;

#[test]
fn repository_errors_are_dependency_faults() {
    let err = DomainError::from(RepositoryError::Unavailable("db down".into()));
    assert_eq!(err.kind(), ErrorKind::Unavailable);
    assert_eq!(err.source(), ErrorSource::Dependency);
    assert!(err.retryable());
}

#[test]
fn rule_violations_are_client_faults() {
    let err = DomainError::TitleEmpty;
    assert_eq!(err.kind(), ErrorKind::InvalidInput);
    assert_eq!(err.source(), ErrorSource::Client);
    assert!(!err.retryable());
}

#[test]
fn every_error_variant_has_its_classification_and_message() {
    let id = TodoId(ID);
    let cases: Vec<(DomainError, ErrorKind, ErrorSource, bool, &str)> = vec![
        (DomainError::TitleEmpty, ErrorKind::InvalidInput, ErrorSource::Client, false, "title must not be empty"),
        (
            DomainError::TitleTooLong { max: 200, actual: 1234 },
            ErrorKind::InvalidInput,
            ErrorSource::Client,
            false,
            "title must be at most 200 characters, got 1234",
        ),
        (DomainError::NotFound(id), ErrorKind::NotFound, ErrorSource::Client, false, "todo 0190a1b2-c3d4-7e5f-8a9b-0c1d2e3f4a5b not found"),
        (DomainError::AlreadyDone(id), ErrorKind::Conflict, ErrorSource::Client, false, "todo 0190a1b2-c3d4-7e5f-8a9b-0c1d2e3f4a5b is already done"),
        (
            DomainError::Repository(RepositoryError::Duplicate(id)),
            ErrorKind::Conflict,
            ErrorSource::Client,
            false,
            "todo 0190a1b2-c3d4-7e5f-8a9b-0c1d2e3f4a5b already exists",
        ),
        (
            DomainError::Repository(RepositoryError::NotFound(id)),
            ErrorKind::NotFound,
            ErrorSource::Client,
            false,
            "todo 0190a1b2-c3d4-7e5f-8a9b-0c1d2e3f4a5b not found",
        ),
        (
            DomainError::Repository(RepositoryError::Unavailable("db down".into())),
            ErrorKind::Unavailable,
            ErrorSource::Dependency,
            true,
            "storage unavailable: db down",
        ),
        (
            DomainError::Repository(RepositoryError::Storage("disk on fire".into())),
            ErrorKind::Internal,
            ErrorSource::Internal,
            false,
            "storage failure: disk on fire",
        ),
    ];
    for (err, kind, source, retryable, text) in cases {
        assert_eq!(err.kind(), kind, "{text}");
        assert_eq!(err.source(), source, "{text}");
        assert_eq!(err.retryable(), retryable, "{text}");
        assert_eq!(err.describe(), text);
        assert_eq!(err.severity(), kind.severity());
    }
    assert_eq!(RepositoryError::Storage("x".into()).severity(), Severity::Error);
}

#[test]
fn titles_are_non_empty_and_at_most_two_hundred_characters() {
    assert!(matches!(Title::new(String::new()), Err(DomainError::TitleEmpty)));
    let longest = "é".repeat(TITLE_MAX_CHARS);
    assert_eq!(Title::new(longest.clone()).expect("200 characters").as_str(), longest);
    let too_long = "x".repeat(201);
    assert_eq!(
        Title::new(too_long),
        Err(DomainError::TitleTooLong { max: 200, actual: 201 })
    );
    assert_eq!(Title::new("ship".into()).expect("valid").as_str(), "ship");
}

#[test]
fn completing_sets_the_time_and_completing_twice_is_refused() {
    let mut todo = Todo::with_id(TodoId(ID), Title::new("ship".into()).unwrap(), 5);
    assert!(!todo.done);
    assert_eq!(todo.created_at, 5);
    assert_eq!(todo.completed_at, None);
    todo.complete(9).expect("first");
    assert!(todo.done);
    assert_eq!(todo.completed_at, Some(9));
    assert_eq!(todo.complete(10), Err(DomainError::AlreadyDone(TodoId(ID))));
    assert_eq!(todo.completed_at, Some(9));
    assert_eq!(todo.clone(), todo);
}

#[test]
fn fresh_ids_are_version_seven_and_distinct() {
    let a = TodoId::new();
    let b = TodoId::new();
    assert_ne!(a, b);
    assert_eq!(uuid::Uuid::from_u128(a.0).get_version_num(), 7);
    let todo = Todo::new(Title::new("x".into()).unwrap(), 1);
    assert_eq!(uuid::Uuid::from_u128(todo.id.0).get_version_num(), 7);
}

#[test]
fn event_names_are_stable() {
    let id = TodoId(ID);
    assert_eq!(DomainEvent::TodoCreated { id }.name(), "todo_created");
    assert_eq!(DomainEvent::TodoCompleted { id }.name(), "todo_completed");
    assert_eq!(DomainEvent::TodosPurged { count: 3 }.name(), "todos_purged");
}

#[test]
fn ids_are_unique_and_v7() {
    let a = acme_svc::id::new_v7();
    let b = acme_svc::id::new_v7();
    assert_ne!(a, b);
    assert_eq!(uuid::Uuid::from_u128(a).get_version_num(), 7);
}
