//! The HTTP-facing model: RFC 9457 problem details built from any classified error, probe
//! bodies, request correlation ids and the todo representation.
//!
//! Client errors carry their message as `detail`; internal errors never do.
use vstd::prelude::*;

use crate::domain_error::DomainError;
use crate::error::{Classify, Describe, ErrorKind};
use crate::id::new_v7;
use crate::lifecycle::Phase;
use crate::text::{hyphenated, uuid_text};
use crate::todo::{Todo, TodoId};

verus! {

/// Problem type URI prefix; the kind's slug is appended.
pub const PROBLEM_TYPE_PREFIX: &'static str = "urn:acme-svc:problem:";

/// An error ready to be sent to the client.
#[derive(Debug)]
pub struct ApiError {
    kind: ErrorKind,
    detail: Option<String>,
    retryable: bool,
}

/// The text of an optional detail.
pub open spec fn detail_text(detail: Option<String>) -> Option<Seq<char>> {
    match detail {
        Some(text) => Some(text@),
        None => None,
    }
}

impl ApiError {
    /// The classification.
    pub closed spec fn kind_spec(&self) -> ErrorKind {
        self.kind
    }

    /// The client-visible detail, if any.
    pub closed spec fn detail_spec(&self) -> Option<Seq<char>> {
        detail_text(self.detail)
    }

    /// Whether the client may retry.
    pub closed spec fn retryable_spec(&self) -> bool {
        self.retryable
    }

    /// An error of `kind` with no detail.
    pub fn new(kind: ErrorKind) -> (error: ApiError)
        ensures
            error.kind_spec() == kind,
            error.detail_spec() == None::<Seq<char>>,
            error.retryable_spec() == kind.default_retryable(),
    {
        ApiError { kind, detail: None, retryable: kind.default_retryable() }
    }

    /// An error of `kind` with a client-visible detail.
    pub fn with_detail(kind: ErrorKind, detail: String) -> (error: ApiError)
        ensures
            error.kind_spec() == kind,
            error.detail_spec() == Some(detail@),
            error.retryable_spec() == kind.default_retryable(),
    {
        ApiError { kind, detail: Some(detail), retryable: kind.default_retryable() }
    }

    /// Converts any classified error. Only client errors show their message as detail.
    pub fn from_classified<E: Classify + Describe>(error: &E) -> (converted: ApiError)
        ensures
            converted.kind_spec() == error.kind_spec(),
            converted.detail_spec() == (if error.kind_spec().is_client_error() {
                Some(error.text())
            } else {
                None
            }),
            converted.retryable_spec() == error.retryable_spec(),
    {
        let kind = error.kind();
        let detail = if kind.is_client_error() {
            Some(error.describe())
        } else {
            None
        };
        ApiError { kind, detail, retryable: error.retryable() }
    }

    /// The classification.
    pub fn kind(&self) -> (kind: ErrorKind)
        ensures
            kind == self.kind_spec(),
    {
        self.kind
    }

    /// The client-visible detail, if any.
    pub fn detail(&self) -> (detail: Option<&str>)
        ensures
            match detail {
                Some(text) => self.detail_spec() == Some(text@),
                None => self.detail_spec() == None::<Seq<char>>,
            },
    {
        match &self.detail {
            Some(text) => Some(text.as_str()),
            None => None,
        }
    }

    /// Whether the client may retry.
    pub fn retryable(&self) -> (retryable: bool)
        ensures
            retryable == self.retryable_spec(),
    {
        self.retryable
    }

    /// The HTTP status.
    pub fn status(&self) -> (status: u16)
        ensures
            status == self.kind_spec().http_status(),
    {
        self.kind.http_status()
    }

    /// The RFC 9457 body of this error.
    pub fn into_problem(self) -> (problem: ProblemDetails)
        ensures
            problem.type_@ == PROBLEM_TYPE_PREFIX@ + self.kind_spec().as_str()@,
            problem.title == self.kind_spec().title(),
            problem.status == self.kind_spec().http_status(),
            detail_text(problem.detail) == self.detail_spec(),
            problem.kind == self.kind_spec().as_str(),
            problem.retryable == self.retryable_spec(),
    {
        let mut type_ = String::from_str(PROBLEM_TYPE_PREFIX);
        type_.append(self.kind.as_str());
        ProblemDetails {
            type_,
            title: self.kind.title(),
            status: self.kind.http_status(),
            detail: self.detail,
            kind: self.kind.as_str(),
            retryable: self.retryable,
        }
    }
}

impl From<DomainError> for ApiError {
    fn from(error: DomainError) -> (converted: ApiError)
        ensures
            converted.kind_spec() == error.kind_spec(),
            converted.detail_spec() == (if error.kind_spec().is_client_error() {
                Some(error.text())
            } else {
                None
            }),
            converted.retryable_spec() == error.retryable_spec(),
    {
        ApiError::from_classified(&error)
    }
}

/// The conversion is specified by the `ensures` of `from` above, over the error's kind, text
/// and retryability: the detail string itself has no spec-level value to equate with.
impl vstd::std_specs::convert::FromSpecImpl<DomainError> for ApiError {
    open spec fn obeys_from_spec() -> bool {
        false
    }

    open spec fn from_spec(error: DomainError) -> ApiError {
        vstd::pervasive::arbitrary()
    }
}

/// An RFC 9457 problem-details body.
#[derive(Debug)]
pub struct ProblemDetails {
    /// The problem type URI.
    pub type_: String,
    /// Short human-readable title.
    pub title: &'static str,
    /// The HTTP status.
    pub status: u16,
    /// Client-visible detail; never set for internal errors.
    pub detail: Option<String>,
    /// Stable identifier of the kind.
    pub kind: &'static str,
    /// Whether the client may retry.
    pub retryable: bool,
}

/// Uniform `404` problem for unknown routes.
pub fn not_found() -> (error: ApiError)
    ensures
        error.kind_spec() == ErrorKind::NotFound,
        error.detail_spec() == Some("no such route"@),
{
    ApiError::with_detail(ErrorKind::NotFound, String::from_str("no such route"))
}

/// Internal errors never show a detail, and client errors always show their message.
pub proof fn law_internal_errors_hide_detail<E: Classify + Describe>(error: E, converted: ApiError)
    requires
        converted.kind_spec() == error.kind_spec(),
        converted.detail_spec() == (if error.kind_spec().is_client_error() {
            Some(error.text())
        } else {
            None
        }),
    ensures
        !error.kind_spec().is_client_error() ==> converted.detail_spec() == None::<Seq<char>>,
        error.kind_spec().is_client_error() ==> converted.detail_spec() == Some(error.text()),
        converted.kind_spec().http_status() >= 500 ==> converted.detail_spec() == None::<Seq<char>>,
{
}

/// `/healthz` body.
#[derive(Debug, Clone, Copy)]
pub struct Liveness {
    /// Always `ok`.
    pub status: &'static str,
}

/// Liveness: the process is up. Always `ok` while it can answer at all.
pub fn live() -> (liveness: Liveness)
    ensures
        liveness.status == "ok",
{
    Liveness { status: "ok" }
}

/// `/readyz` body while the lifecycle does not accept work.
#[derive(Debug, Clone, Copy)]
pub struct NotReady {
    /// Always `not_ready`.
    pub status: &'static str,
    /// The current phase.
    pub phase: Phase,
}

/// The HTTP status of the `not_ready` answer: service unavailable.
pub const NOT_READY_STATUS: u16 = 503;

impl NotReady {
    /// The HTTP status this answer is sent with: `503`, so that load balancers stop routing
    /// here while the lifecycle does not accept work.
    pub fn http_status(&self) -> (status: u16)
        ensures
            status == NOT_READY_STATUS,
    {
        NOT_READY_STATUS
    }

    /// The `not_ready` answer for `phase`, unless the phase accepts work.
    pub fn for_phase(phase: Phase) -> (answer: Option<NotReady>)
        ensures
            phase.accepts_work() <==> answer is None,
            answer matches Some(body) ==> body.status == "not_ready" && body.phase == phase,
    {
        if phase.accepts_work() {
            None
        } else {
            Some(NotReady { status: "not_ready", phase })
        }
    }
}

/// The status of `/readyz` once the lifecycle accepts work: `200` when every health check
/// passes, `503` otherwise.
pub fn readiness_status(checks_pass: bool) -> (status: u16)
    ensures
        status == if checks_pass {
            200u16
        } else {
            503u16
        },
{
    if checks_pass {
        200
    } else {
        503
    }
}

/// The longest correlation id accepted from a client, in bytes.
pub const MAX_REQUEST_ID_LEN: usize = 128;

/// Whether a client-sent correlation id is acceptable: not empty, at most
/// [`MAX_REQUEST_ID_LEN`] bytes, ASCII only.
pub open spec fn request_id_acceptable(value: &str) -> bool {
    value@.len() > 0 && value.len() <= MAX_REQUEST_ID_LEN && value.is_ascii()
}

/// A client-sent correlation id is acceptable exactly when it has between 1 and 128
/// characters and every one of them is ASCII (code point at most `0x7f`); case, digits and
/// punctuation play no part. (An ASCII text has one byte per character, so its byte length
/// is its length; the second clause is stated for texts whose length a `usize` can hold.)
pub proof fn law_request_id_acceptance(value: &str)
    ensures
        (0 < value@.len() <= 128 && forall|i: int|
            0 <= i < value@.len() ==> '\0' <= #[trigger] value@[i] <= '\u{7f}')
            ==> request_id_acceptable(value),
        value@.len() <= usize::MAX ==> (request_id_acceptable(value) ==> (0 < value@.len() <= 128
            && forall|i: int| 0 <= i < value@.len() ==> '\0' <= #[trigger] value@[i] <= '\u{7f}')),
{
    if value.is_ascii() {
        vstd::string::is_ascii_spec_bytes(value);
    }
}

/// The correlation id to use for a request whose `x-request-id` header reads `inbound`:
/// the header when acceptable, a fresh time-ordered id otherwise.
pub fn request_id(inbound: Option<&str>) -> (id: String)
    ensures
        match inbound {
            Some(value) if request_id_acceptable(value) => id@ == value@,
            _ => exists|fresh: u128| crate::id::version_of(fresh) == 7 && id@ == hyphenated(fresh),
        },
        inbound matches Some(value) ==> (0 < value@.len() <= 128 && forall|i: int|
            0 <= i < value@.len() ==> '\0' <= #[trigger] value@[i] <= '\u{7f}') ==> id@ == value@,
{
    proof {
        if let Some(value) = inbound {
            law_request_id_acceptance(value);
        }
    }
    if let Some(value) = inbound {
        if !value.is_empty() && value.len() <= MAX_REQUEST_ID_LEN && value.is_ascii() {
            return value.to_owned();
        }
    }
    let fresh = new_v7();
    uuid_text(fresh)
}

#[verifier::external_type_specification]
#[verifier::external_body]
pub struct ExInstant(std::time::Instant);

/// Facts about the current request that every layer may want.
#[derive(Debug)]
pub struct RequestContext {
    /// Correlation id: taken from the `x-request-id` request header or generated.
    pub request_id: String,
    /// When the request entered the middleware stack.
    pub started_at: std::time::Instant,
}

/// `POST /api/v1/todos` body.
#[derive(Debug, Clone)]
pub struct CreateTodoRequest {
    /// The title; validated by the domain.
    pub title: String,
}

/// A todo as the API shows it. Timestamps are nanoseconds since the Unix epoch, UTC.
#[derive(Debug, Clone)]
pub struct TodoResponse {
    /// Identity.
    pub id: TodoId,
    /// Title.
    pub title: String,
    /// Whether it is done.
    pub done: bool,
    /// Creation time.
    pub created_at: i128,
    /// Completion time, when done.
    pub completed_at: Option<i128>,
}

impl TodoResponse {
    /// The representation of `todo`.
    pub fn from_todo(todo: Todo) -> (response: TodoResponse)
        ensures
            response.id == todo.id,
            response.title@ == todo.title@,
            response.done == todo.done,
            response.created_at == todo.created_at,
            response.completed_at == todo.completed_at,
    {
        TodoResponse {
            id: todo.id,
            title: String::from_str(todo.title.as_str()),
            done: todo.done,
            created_at: todo.created_at,
            completed_at: todo.completed_at,
        }
    }
}

} // verus!
