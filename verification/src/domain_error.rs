//! Domain errors: precise variants for business rules, plus what a repository may report.
use vstd::prelude::*;

use crate::error::{Classify, Describe, ErrorKind, ErrorSource};
use crate::text::{decimal, hyphenated, usize_text, uuid_text};
use crate::todo::TodoId;

verus! {

/// What a todo repository may report. Adapters map their driver's errors into these.
#[derive(Debug, PartialEq, Eq)]
pub enum RepositoryError {
    /// Insert of an id that already exists.
    Duplicate(TodoId),
    /// Update of an id that does not exist.
    NotFound(TodoId),
    /// The store cannot be reached right now; retrying may help.
    Unavailable(String),
    /// The store misbehaved; retrying will not help.
    Storage(String),
}

/// A business rule was violated, or a repository failed underneath a business operation.
#[derive(Debug, PartialEq, Eq)]
pub enum DomainError {
    /// Titles carry meaning; an empty one is a caller mistake.
    TitleEmpty,
    /// Titles are bounded to keep storage and UIs sane.
    TitleTooLong {
        /// The limit.
        max: usize,
        /// What was submitted.
        actual: usize,
    },
    /// The referenced todo does not exist.
    NotFound(TodoId),
    /// Completing twice is a conflict, not a no-op: the second caller has stale state.
    AlreadyDone(TodoId),
    /// The repository failed.
    Repository(RepositoryError),
}

impl Classify for RepositoryError {
    open spec fn kind_spec(&self) -> ErrorKind {
        match self {
            RepositoryError::Duplicate(_) => ErrorKind::Conflict,
            RepositoryError::NotFound(_) => ErrorKind::NotFound,
            RepositoryError::Unavailable(_) => ErrorKind::Unavailable,
            RepositoryError::Storage(_) => ErrorKind::Internal,
        }
    }

    open spec fn source_spec(&self) -> ErrorSource {
        self.kind_spec().default_source()
    }

    open spec fn retryable_spec(&self) -> bool {
        self.kind_spec().default_retryable()
    }

    fn kind(&self) -> (kind: ErrorKind) {
        match self {
            RepositoryError::Duplicate(_) => ErrorKind::Conflict,
            RepositoryError::NotFound(_) => ErrorKind::NotFound,
            RepositoryError::Unavailable(_) => ErrorKind::Unavailable,
            RepositoryError::Storage(_) => ErrorKind::Internal,
        }
    }

    fn source(&self) -> (source: ErrorSource) {
        self.kind().default_source()
    }

    fn retryable(&self) -> (retryable: bool) {
        self.kind().default_retryable()
    }
}

impl Classify for DomainError {
    open spec fn kind_spec(&self) -> ErrorKind {
        match self {
            DomainError::TitleEmpty | DomainError::TitleTooLong { .. } => ErrorKind::InvalidInput,
            DomainError::NotFound(_) => ErrorKind::NotFound,
            DomainError::AlreadyDone(_) => ErrorKind::Conflict,
            DomainError::Repository(inner) => inner.kind_spec(),
        }
    }

    open spec fn source_spec(&self) -> ErrorSource {
        match self {
            DomainError::Repository(inner) => inner.source_spec(),
            _ => self.kind_spec().default_source(),
        }
    }

    open spec fn retryable_spec(&self) -> bool {
        match self {
            DomainError::Repository(inner) => inner.retryable_spec(),
            _ => false,
        }
    }

    fn kind(&self) -> (kind: ErrorKind) {
        match self {
            DomainError::TitleEmpty | DomainError::TitleTooLong { .. } => ErrorKind::InvalidInput,
            DomainError::NotFound(_) => ErrorKind::NotFound,
            DomainError::AlreadyDone(_) => ErrorKind::Conflict,
            DomainError::Repository(inner) => inner.kind(),
        }
    }

    fn source(&self) -> (source: ErrorSource) {
        match self {
            DomainError::Repository(inner) => inner.source(),
            _ => self.kind().default_source(),
        }
    }

    fn retryable(&self) -> (retryable: bool) {
        match self {
            DomainError::Repository(inner) => inner.retryable(),
            _ => false,
        }
    }
}

/// `prefix`, the hyphenated form of `id`, then `suffix`.
pub open spec fn around_id(prefix: Seq<char>, id: TodoId, suffix: Seq<char>) -> Seq<char> {
    prefix + hyphenated(id.0) + suffix
}

/// Builds `prefix`, the hyphenated form of `id`, then `suffix`.
fn text_around_id(prefix: &str, id: TodoId, suffix: &str) -> (text: String)
    ensures
        text@ == around_id(prefix@, id, suffix@),
{
    let mut text = String::new();
    text.append(prefix);
    let id_text = uuid_text(id.0);
    text.append(id_text.as_str());
    text.append(suffix);
    text
}

/// `prefix` followed by `detail`.
fn text_after(prefix: &str, detail: &String) -> (text: String)
    ensures
        text@ == prefix@ + detail@,
{
    let mut text = String::new();
    text.append(prefix);
    text.append(detail.as_str());
    text
}

impl Describe for RepositoryError {
    open spec fn text(&self) -> Seq<char> {
        match self {
            RepositoryError::Duplicate(id) => around_id("todo "@, *id, " already exists"@),
            RepositoryError::NotFound(id) => around_id("todo "@, *id, " not found"@),
            RepositoryError::Unavailable(detail) => "storage unavailable: "@ + detail@,
            RepositoryError::Storage(detail) => "storage failure: "@ + detail@,
        }
    }

    fn describe(&self) -> (text: String) {
        match self {
            RepositoryError::Duplicate(id) => text_around_id("todo ", *id, " already exists"),
            RepositoryError::NotFound(id) => text_around_id("todo ", *id, " not found"),
            RepositoryError::Unavailable(detail) => text_after("storage unavailable: ", detail),
            RepositoryError::Storage(detail) => text_after("storage failure: ", detail),
        }
    }
}

impl Describe for DomainError {
    open spec fn text(&self) -> Seq<char> {
        match self {
            DomainError::TitleEmpty => "title must not be empty"@,
            DomainError::TitleTooLong { max, actual } => "title must be at most "@ + decimal(
                *max as nat,
            ) + " characters, got "@ + decimal(*actual as nat),
            DomainError::NotFound(id) => around_id("todo "@, *id, " not found"@),
            DomainError::AlreadyDone(id) => around_id("todo "@, *id, " is already done"@),
            DomainError::Repository(inner) => inner.text(),
        }
    }

    fn describe(&self) -> (text: String) {
        match self {
            DomainError::TitleEmpty => String::from_str("title must not be empty"),
            DomainError::TitleTooLong { max, actual } => {
                let mut text = String::from_str("title must be at most ");
                let max_text = usize_text(*max);
                text.append(max_text.as_str());
                text.append(" characters, got ");
                let actual_text = usize_text(*actual);
                text.append(actual_text.as_str());
                text
            },
            DomainError::NotFound(id) => text_around_id("todo ", *id, " not found"),
            DomainError::AlreadyDone(id) => text_around_id("todo ", *id, " is already done"),
            DomainError::Repository(inner) => inner.describe(),
        }
    }
}

impl From<RepositoryError> for DomainError {
    fn from(error: RepositoryError) -> (wrapped: DomainError) {
        DomainError::Repository(error)
    }
}

impl vstd::std_specs::convert::FromSpecImpl<RepositoryError> for DomainError {
    open spec fn obeys_from_spec() -> bool {
        true
    }

    open spec fn from_spec(error: RepositoryError) -> DomainError {
        DomainError::Repository(error)
    }
}

/// A repository failure keeps its classification when it surfaces as a domain error.
pub proof fn law_repository_failures_keep_their_classification(error: RepositoryError)
    ensures
        DomainError::Repository(error).kind_spec() == error.kind_spec(),
        DomainError::Repository(error).source_spec() == error.source_spec(),
        DomainError::Repository(error).retryable_spec() == error.retryable_spec(),
{
}

/// Violations of business rules are client faults and never retryable.
pub proof fn law_rule_violations_are_client_faults(error: DomainError)
    requires
        !(error is Repository),
    ensures
        error.source_spec() == ErrorSource::Client,
        !error.retryable_spec(),
{
}

} // verus!
