use axum::http::StatusCode;

use acme_svc::api::{
    live, not_found, readiness_status, request_id, ApiError, NotReady, TodoResponse,
    MAX_REQUEST_ID_LEN, PROBLEM_TYPE_PREFIX,
};
use acme_svc::domain_error::{DomainError, RepositoryError};
use acme_svc::error::ErrorKind;
use acme_svc::lifecycle::Phase;
use acme_svc::todo::{Title, Todo, TodoId};

#[test]
fn internal_errors_hide_detail_and_client_errors_show_it() {
    let internal = ApiError::from_classified(&DomainError::from(RepositoryError::Storage(
        "disk on fire".into(),
    )));
    assert_eq!(
        StatusCode::from_u16(internal.status()).unwrap(),
        StatusCode::INTERNAL_SERVER_ERROR
    );
    assert!(internal.detail().is_none());

    let client = ApiError::from(DomainError::TitleEmpty);
    assert_eq!(StatusCode::from_u16(client.status()).unwrap(), StatusCode::BAD_REQUEST);
    assert_eq!(client.detail(), Some("title must not be empty"));
}

#[test]
fn the_problem_body_carries_type_title_status_kind_and_retryability() {
    let problem = ApiError::from(DomainError::Repository(RepositoryError::Unavailable(
        "db down".into(),
    )))
    .into_problem();
    assert_eq!(problem.type_, "urn:acme-svc:problem:unavailable");
    assert_eq!(problem.title, "Service unavailable");
    assert_eq!(problem.status, 503);
    assert_eq!(problem.detail, None);
    assert_eq!(problem.kind, "unavailable");
    assert!(problem.retryable);

    let conflict = ApiError::from(DomainError::AlreadyDone(TodoId(1))).into_problem();
    assert_eq!(conflict.status, 409);
    assert_eq!(
        conflict.detail.as_deref(),
        Some("todo 00000000-0000-0000-0000-000000000001 is already done")
    );
    assert!(!conflict.retryable);
    assert!(conflict.type_.starts_with(PROBLEM_TYPE_PREFIX));
}

#[test]
fn constructed_errors_take_the_kind_defaults() {
    let plain = ApiError::new(ErrorKind::RateLimited);
    assert_eq!(plain.kind(), ErrorKind::RateLimited);
    assert_eq!(plain.detail(), None);
    assert!(plain.retryable());
    assert_eq!(plain.status(), 429);
    let detailed = ApiError::with_detail(ErrorKind::Timeout, "request exceeded 5s".into());
    assert_eq!(detailed.detail(), Some("request exceeded 5s"));
    assert_eq!(detailed.status(), 504);
    let missing = not_found();
    assert_eq!(missing.kind(), ErrorKind::NotFound);
    assert_eq!(missing.detail(), Some("no such route"));
}

#[test]
fn probes_answer_by_phase_and_checks() {
    assert_eq!(live().status, "ok");
    assert!(NotReady::for_phase(Phase::Ready).is_none());
    assert!(NotReady::for_phase(Phase::Degraded).is_none());
    for phase in [Phase::Starting, Phase::Draining, Phase::Stopped, Phase::Aborted] {
        let body = NotReady::for_phase(phase).expect("not ready");
        assert_eq!(body.status, "not_ready");
        assert_eq!(body.http_status(), 503);
        assert_eq!(body.phase, phase);
    }
    assert_eq!(readiness_status(true), 200);
    assert_eq!(readiness_status(false), 503);
}

#[test]
fn acceptable_request_ids_are_kept_and_others_replaced() {
    assert_eq!(request_id(Some("abc-123")), "abc-123");
    let longest = "a".repeat(MAX_REQUEST_ID_LEN);
    assert_eq!(request_id(Some(&longest)), longest);
    for rejected in [None, Some(""), Some("é"), Some(&"a".repeat(129) as &str)] {
        let id = request_id(rejected);
        let parsed = uuid::Uuid::parse_str(&id).expect("a generated id");
        assert_eq!(parsed.get_version_num(), 7);
        assert_eq!(id, parsed.hyphenated().to_string());
    }
}

#[test]
fn todo_responses_copy_every_field() {
    let mut todo = Todo::with_id(TodoId(3), Title::new("ship".into()).unwrap(), 11);
    todo.complete(12).unwrap();
    let response = TodoResponse::from_todo(todo);
    assert_eq!(response.id, TodoId(3));
    assert_eq!(response.title, "ship");
    assert!(response.done);
    assert_eq!(response.created_at, 11);
    assert_eq!(response.completed_at, Some(12));
}
