use acme_svc::clock::FakeClock;
use acme_svc::domain_error::DomainError;
use acme_svc::event::DomainEvent;
use acme_svc::repository::InMemoryTodoRepository;
use acme_svc::service::{RecordingPublisher, TodoService};
use acme_svc::todo::{Title, TodoId};

const SECOND: i128 = 1_000_000_000;
const HOUR_NS: u128 = 3_600_000_000_000;

type Service = TodoService<InMemoryTodoRepository, FakeClock, RecordingPublisher>;

fn service() -> Service {
    TodoService::new(
        InMemoryTodoRepository::new(),
        FakeClock::new(1_000_000 * SECOND),
        RecordingPublisher::new(),
    )
}

fn title(s: &str) -> Title {
    Title::new(s.to_string()).unwrap_or_else(|_| unreachable!("valid test title"))
}

#[test]
fn create_then_complete_publishes_two_events() {
    let mut svc = service();
    let todo = svc.create(title("ship")).expect("create");
    let done = svc.complete(todo.id).expect("complete");
    assert!(done.done);
    let recorded = svc.publisher().recorded().to_vec();
    assert_eq!(
        recorded,
        vec![
            DomainEvent::TodoCreated { id: todo.id },
            DomainEvent::TodoCompleted { id: todo.id }
        ]
    );
}

#[test]
fn completing_twice_is_a_conflict_and_unknown_is_not_found() {
    let mut svc = service();
    let todo = svc.create(title("x")).expect("create");
    svc.complete(todo.id).expect("first");
    assert!(matches!(
        svc.complete(todo.id),
        Err(DomainError::AlreadyDone(_))
    ));
    assert!(matches!(
        svc.get(TodoId::new()),
        Err(DomainError::NotFound(_))
    ));
}

#[test]
fn purge_only_removes_old_completed_todos() {
    let mut svc = service();
    let open = svc.create(title("open")).expect("create");
    let done = svc.create(title("done")).expect("create");
    svc.complete(done.id).expect("complete");
    // completed "now" is not older than 1h
    assert_eq!(svc.purge_completed(HOUR_NS).expect("purge"), 0);
    // retention 0 means "everything completed before now"; completed_at == now is kept
    assert_eq!(svc.purge_completed(0).expect("purge"), 0);
    assert_eq!(svc.list().expect("list").len(), 2);
    assert!(svc.get(open.id).is_ok());
    // two creations + one completion; purges published nothing
    assert_eq!(svc.publisher().recorded().len(), 3);
}

#[test]
fn created_todos_carry_the_clock_time_and_read_back() {
    let mut svc = service();
    let todo = svc.create(title("ship")).expect("create");
    assert_eq!(todo.created_at, 1_000_000 * SECOND);
    assert_eq!(todo.title.as_str(), "ship");
    assert!(!todo.done);
    assert_eq!(svc.get(todo.id).expect("get"), todo);
    assert_eq!(uuid::Uuid::from_u128(todo.id.0).get_version_num(), 7);
}

#[test]
fn a_purge_after_the_retention_removes_and_announces() {
    let mut svc = service();
    let id = TodoId(77);
    svc.create_at(id, title("old"), 10).expect("create");
    svc.complete_at(id, 20).expect("complete");
    assert_eq!(svc.purge_completed_at(30, 5).expect("purge"), 1);
    assert!(matches!(svc.get(id), Err(DomainError::NotFound(_))));
    assert_eq!(
        svc.publisher().recorded().last(),
        Some(&DomainEvent::TodosPurged { count: 1 })
    );
    assert!(svc.list().expect("list").is_empty());
}

#[test]
fn creating_a_known_id_is_a_duplicate_and_announces_nothing() {
    let mut svc = service();
    let id = TodoId(5);
    svc.create_at(id, title("a"), 1).expect("create");
    assert!(matches!(
        svc.create_at(id, title("b"), 2),
        Err(DomainError::Repository(acme_svc::domain_error::RepositoryError::Duplicate(_)))
    ));
    assert_eq!(svc.publisher().recorded().len(), 1);
    assert_eq!(svc.get(id).expect("get").title.as_str(), "a");
    assert!(matches!(svc.complete(TodoId(6)), Err(DomainError::NotFound(_))));
}

#[test]
fn with_a_frozen_clock_every_time_is_the_clock_reading() {
    let mut svc = service();
    let todo = svc.create(title("frozen")).expect("create");
    let done = svc.complete(todo.id).expect("complete");
    assert_eq!(done.created_at, 1_000_000 * SECOND);
    assert_eq!(done.completed_at, Some(1_000_000 * SECOND));
    assert_eq!(svc.purge_completed(0).expect("purge"), 0);
    assert_eq!(svc.purge_completed(HOUR_NS).expect("purge"), 0);
    assert_eq!(svc.list().expect("list").len(), 1);
}
