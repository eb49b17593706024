use acme_svc::domain_error::RepositoryError;
use acme_svc::repository::{InMemoryTodoRepository, TodoRepository};
use acme_svc::todo::{Title, Todo, TodoId};

const SECOND: i128 = 1_000_000_000;

fn todo(title: &str, at: i128) -> Todo {
    Todo::new(Title::new(title.to_string()).unwrap_or_else(|_| unreachable!()), at)
}

#[test]
fn insert_get_update_list_purge() {
    let mut repo = InMemoryTodoRepository::new();
    let t0: i128 = 0;
    let mut a = todo("a", t0);
    let b = todo("b", t0 + SECOND);
    repo.insert(a.clone()).expect("insert a");
    repo.insert(b.clone()).expect("insert b");
    assert!(matches!(
        repo.insert(a.clone()),
        Err(RepositoryError::Duplicate(_))
    ));

    assert_eq!(repo.get(a.id).expect("get"), Some(a.clone()));
    assert_eq!(
        repo.list()
            .expect("list")
            .iter()
            .map(|t| t.id)
            .collect::<Vec<_>>(),
        vec![a.id, b.id]
    );

    a.complete(t0 + 2 * SECOND).expect("complete");
    repo.update(a.clone()).expect("update");
    assert!(matches!(
        repo.update(todo("ghost", t0)),
        Err(RepositoryError::NotFound(_))
    ));

    assert_eq!(repo.purge_completed_before(t0 + 2 * SECOND).expect("purge"), 0);
    assert_eq!(repo.purge_completed_before(t0 + 3 * SECOND).expect("purge"), 1);
    assert_eq!(repo.len(), 1);
}

#[test]
fn an_empty_store_lists_nothing_and_misses_every_id() {
    let repo = InMemoryTodoRepository::new();
    assert!(repo.is_empty());
    assert_eq!(repo.len(), 0);
    assert_eq!(repo.list().expect("list"), Vec::<Todo>::new());
    assert_eq!(repo.get(TodoId(42)).expect("get"), None);
}

#[test]
fn listing_orders_by_creation_time_then_id() {
    let mut repo = InMemoryTodoRepository::new();
    let title = |s: &str| Title::new(s.to_string()).unwrap();
    let later = Todo::with_id(TodoId(1), title("later"), 50);
    let tie_high = Todo::with_id(TodoId(9), title("tie high"), 10);
    let tie_low = Todo::with_id(TodoId(3), title("tie low"), 10);
    let first = Todo::with_id(TodoId(7), title("first"), -5);
    for t in [later.clone(), tie_high.clone(), tie_low.clone(), first.clone()] {
        repo.insert(t).expect("insert");
    }
    assert_eq!(repo.list().expect("list"), vec![first, tie_low, tie_high, later]);
}

#[test]
fn a_read_gives_back_what_the_last_write_stored() {
    let mut repo = InMemoryTodoRepository::new();
    let mut t = Todo::with_id(TodoId(5), Title::new("x".into()).unwrap(), 1);
    repo.insert(t.clone()).expect("insert");
    assert_eq!(repo.get(TodoId(5)).expect("get"), Some(t.clone()));
    t.complete(4).expect("complete");
    repo.update(t.clone()).expect("update");
    assert_eq!(repo.get(TodoId(5)).expect("get"), Some(t.clone()));
    assert_eq!(repo.len(), 1);
}

#[test]
fn purging_keeps_open_todos_and_those_completed_at_the_cutoff() {
    let mut repo = InMemoryTodoRepository::new();
    let title = |s: &str| Title::new(s.to_string()).unwrap();
    let open = Todo::with_id(TodoId(1), title("open"), 0);
    let mut at_cutoff = Todo::with_id(TodoId(2), title("at cutoff"), 0);
    at_cutoff.complete(100).unwrap();
    let mut before = Todo::with_id(TodoId(3), title("before"), 0);
    before.complete(99).unwrap();
    for t in [open.clone(), at_cutoff.clone(), before] {
        repo.insert(t).expect("insert");
    }
    assert_eq!(repo.purge_completed_before(100).expect("purge"), 1);
    assert_eq!(repo.list().expect("list"), vec![open, at_cutoff]);
    assert_eq!(repo.get(TodoId(3)).expect("get"), None);
}
