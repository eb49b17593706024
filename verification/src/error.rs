//! Transport-agnostic error classification shared by every layer.
//!
//! Each layer keeps its own precise error enum. What they have in common is answered here, once:
//! what kind of failure is this, whose fault is it, and may the caller retry? The API layer turns
//! a [`Classify`] implementation into an HTTP status code and a log level without knowing the
//! concrete error type.
use vstd::prelude::*;

verus! {

/// Coarse classification of a failure.
#[derive(Debug, Clone, Copy, PartialEq, Eq, Hash, Structural)]
pub enum ErrorKind {
    /// The caller sent something we cannot accept.
    InvalidInput,
    /// The request body exceeds the configured limit.
    PayloadTooLarge,
    /// The caller is not authenticated.
    Unauthorized,
    /// The caller is authenticated but not allowed.
    Forbidden,
    /// The referenced resource does not exist.
    NotFound,
    /// The request conflicts with current state (duplicate, stale version, already done).
    Conflict,
    /// The caller exceeded a rate limit; retrying later may succeed.
    RateLimited,
    /// A dependency did not answer in time.
    Timeout,
    /// A dependency (or this service during shutdown) is not available right now.
    Unavailable,
    /// A bug or an unexpected condition on our side.
    Internal,
}

/// Who caused the failure. Orthogonal to [`ErrorKind`]: a `Timeout` is normally a dependency's
/// fault but a concrete error may reclassify it.
#[derive(Debug, Clone, Copy, PartialEq, Eq, Hash, Structural)]
pub enum ErrorSource {
    /// The remote caller.
    Client,
    /// Something we depend on (database, upstream service, queue).
    Dependency,
    /// Ourselves.
    Internal,
}

/// Log level for an error, without depending on a logging crate here.
#[derive(Debug, Clone, Copy, PartialEq, Eq, PartialOrd, Ord, Hash, Structural)]
pub enum Severity {
    /// Expected client mistakes.
    Debug,
    /// Noteworthy but routine.
    Info,
    /// Degraded dependencies.
    Warn,
    /// Bugs.
    Error,
}

impl ErrorKind {
    /// Every kind, for tests and exhaustive tables.
    pub const ALL: [ErrorKind; 10] = [
        ErrorKind::InvalidInput,
        ErrorKind::PayloadTooLarge,
        ErrorKind::Unauthorized,
        ErrorKind::Forbidden,
        ErrorKind::NotFound,
        ErrorKind::Conflict,
        ErrorKind::RateLimited,
        ErrorKind::Timeout,
        ErrorKind::Unavailable,
        ErrorKind::Internal,
    ];

    /// The HTTP status code this kind maps to.
    #[verifier::allow_in_spec]
    pub fn http_status(self) -> u16
        returns
            match self {
                ErrorKind::InvalidInput => 400u16,
                ErrorKind::Unauthorized => 401u16,
                ErrorKind::Forbidden => 403u16,
                ErrorKind::NotFound => 404u16,
                ErrorKind::Conflict => 409u16,
                ErrorKind::PayloadTooLarge => 413u16,
                ErrorKind::RateLimited => 429u16,
                ErrorKind::Internal => 500u16,
                ErrorKind::Unavailable => 503u16,
                ErrorKind::Timeout => 504u16,
            },
    {
        match self {
            ErrorKind::InvalidInput => 400,
            ErrorKind::Unauthorized => 401,
            ErrorKind::Forbidden => 403,
            ErrorKind::NotFound => 404,
            ErrorKind::Conflict => 409,
            ErrorKind::PayloadTooLarge => 413,
            ErrorKind::RateLimited => 429,
            ErrorKind::Internal => 500,
            ErrorKind::Unavailable => 503,
            ErrorKind::Timeout => 504,
        }
    }

    /// Short human-readable title (RFC 9457 `title`).
    #[verifier::allow_in_spec]
    pub fn title(self) -> &'static str
        returns
            match self {
                ErrorKind::InvalidInput => "Invalid input",
                ErrorKind::Unauthorized => "Unauthorized",
                ErrorKind::Forbidden => "Forbidden",
                ErrorKind::NotFound => "Not found",
                ErrorKind::Conflict => "Conflict",
                ErrorKind::PayloadTooLarge => "Payload too large",
                ErrorKind::RateLimited => "Rate limited",
                ErrorKind::Timeout => "Upstream timeout",
                ErrorKind::Unavailable => "Service unavailable",
                ErrorKind::Internal => "Internal error",
            },
    {
        match self {
            ErrorKind::InvalidInput => "Invalid input",
            ErrorKind::Unauthorized => "Unauthorized",
            ErrorKind::Forbidden => "Forbidden",
            ErrorKind::NotFound => "Not found",
            ErrorKind::Conflict => "Conflict",
            ErrorKind::PayloadTooLarge => "Payload too large",
            ErrorKind::RateLimited => "Rate limited",
            ErrorKind::Timeout => "Upstream timeout",
            ErrorKind::Unavailable => "Service unavailable",
            ErrorKind::Internal => "Internal error",
        }
    }

    /// Stable `snake_case` identifier for metrics labels and problem types.
    #[verifier::allow_in_spec]
    pub fn as_str(self) -> &'static str
        returns
            match self {
                ErrorKind::InvalidInput => "invalid_input",
                ErrorKind::Unauthorized => "unauthorized",
                ErrorKind::Forbidden => "forbidden",
                ErrorKind::NotFound => "not_found",
                ErrorKind::Conflict => "conflict",
                ErrorKind::PayloadTooLarge => "payload_too_large",
                ErrorKind::RateLimited => "rate_limited",
                ErrorKind::Timeout => "timeout",
                ErrorKind::Unavailable => "unavailable",
                ErrorKind::Internal => "internal",
            },
    {
        match self {
            ErrorKind::InvalidInput => "invalid_input",
            ErrorKind::Unauthorized => "unauthorized",
            ErrorKind::Forbidden => "forbidden",
            ErrorKind::NotFound => "not_found",
            ErrorKind::Conflict => "conflict",
            ErrorKind::PayloadTooLarge => "payload_too_large",
            ErrorKind::RateLimited => "rate_limited",
            ErrorKind::Timeout => "timeout",
            ErrorKind::Unavailable => "unavailable",
            ErrorKind::Internal => "internal",
        }
    }

    /// Who is responsible, unless the concrete error says otherwise.
    #[verifier::allow_in_spec]
    pub fn default_source(self) -> ErrorSource
        returns
            match self {
                ErrorKind::InvalidInput | ErrorKind::PayloadTooLarge | ErrorKind::Unauthorized
                | ErrorKind::Forbidden | ErrorKind::NotFound | ErrorKind::Conflict
                | ErrorKind::RateLimited => ErrorSource::Client,
                ErrorKind::Timeout | ErrorKind::Unavailable => ErrorSource::Dependency,
                ErrorKind::Internal => ErrorSource::Internal,
            },
    {
        match self {
            ErrorKind::InvalidInput
            | ErrorKind::PayloadTooLarge
            | ErrorKind::Unauthorized
            | ErrorKind::Forbidden
            | ErrorKind::NotFound
            | ErrorKind::Conflict
            | ErrorKind::RateLimited => ErrorSource::Client,
            ErrorKind::Timeout | ErrorKind::Unavailable => ErrorSource::Dependency,
            ErrorKind::Internal => ErrorSource::Internal,
        }
    }

    /// Whether an identical retry could plausibly succeed.
    #[verifier::allow_in_spec]
    pub fn default_retryable(self) -> bool
        returns
            self is RateLimited || self is Timeout || self is Unavailable,
    {
        match self {
            ErrorKind::RateLimited | ErrorKind::Timeout | ErrorKind::Unavailable => true,
            _ => false,
        }
    }

    /// How loudly to log an error of this kind.
    #[verifier::allow_in_spec]
    pub fn severity(self) -> Severity
        returns
            match self {
                ErrorKind::InvalidInput | ErrorKind::PayloadTooLarge | ErrorKind::Unauthorized
                | ErrorKind::Forbidden | ErrorKind::NotFound => Severity::Debug,
                ErrorKind::Conflict | ErrorKind::RateLimited => Severity::Info,
                ErrorKind::Timeout | ErrorKind::Unavailable => Severity::Warn,
                ErrorKind::Internal => Severity::Error,
            },
    {
        match self {
            ErrorKind::InvalidInput
            | ErrorKind::PayloadTooLarge
            | ErrorKind::Unauthorized
            | ErrorKind::Forbidden
            | ErrorKind::NotFound => Severity::Debug,
            ErrorKind::Conflict | ErrorKind::RateLimited => Severity::Info,
            ErrorKind::Timeout | ErrorKind::Unavailable => Severity::Warn,
            ErrorKind::Internal => Severity::Error,
        }
    }

    /// `true` for 4xx-class kinds.
    #[verifier::allow_in_spec]
    pub fn is_client_error(self) -> bool
        returns
            self.default_source() is Client,
    {
        match self.default_source() {
            ErrorSource::Client => true,
            _ => false,
        }
    }
}

impl ErrorSource {
    /// Stable `snake_case` identifier.
    #[verifier::allow_in_spec]
    pub fn as_str(self) -> &'static str
        returns
            match self {
                ErrorSource::Client => "client",
                ErrorSource::Dependency => "dependency",
                ErrorSource::Internal => "internal",
            },
    {
        match self {
            ErrorSource::Client => "client",
            ErrorSource::Dependency => "dependency",
            ErrorSource::Internal => "internal",
        }
    }
}

/// Implemented by every error type that can cross a layer boundary.
///
/// The spec functions name what each method answers, so that callers generic over the error
/// type can state their results in terms of them.
pub trait Classify {
    /// What [`kind`](Classify::kind) answers.
    spec fn kind_spec(&self) -> ErrorKind;

    /// What [`source`](Classify::source) answers.
    spec fn source_spec(&self) -> ErrorSource;

    /// What [`retryable`](Classify::retryable) answers.
    spec fn retryable_spec(&self) -> bool;

    /// The coarse kind of this error.
    fn kind(&self) -> (kind: ErrorKind)
        ensures
            kind == self.kind_spec(),
    ;

    /// Who caused it.
    fn source(&self) -> (source: ErrorSource)
        ensures
            source == self.source_spec(),
    ;

    /// Whether an identical retry could plausibly succeed.
    fn retryable(&self) -> (retryable: bool)
        ensures
            retryable == self.retryable_spec(),
    ;

    /// How loudly to log it: the severity of its kind.
    fn severity(&self) -> (severity: Severity)
        ensures
            severity == self.kind_spec().severity(),
    {
        self.kind().severity()
    }
}

/// The text an error shows to people: what its `Display` would print.
pub trait Describe {
    /// What [`describe`](Describe::describe) returns.
    spec fn text(&self) -> Seq<char>;

    /// Renders the message.
    fn describe(&self) -> (text: String)
        ensures
            text@ == self.text(),
    ;
}

/// The separator between two hops of a rendered error chain.
pub open spec fn hop_separator() -> Seq<char> {
    seq![':', ' ']
}

/// The rendering of an error chain whose hops (outermost first) show the texts `hops`: every
/// hop joined by `": "`, except that a hop whose text equals the hop before it is printed once.
pub open spec fn chain_text(hops: Seq<Seq<char>>) -> Seq<char>
    decreases hops.len(),
{
    if hops.len() == 0 {
        Seq::empty()
    } else if hops.len() == 1 {
        hops[0]
    } else if hops.last() == hops[hops.len() - 2] {
        chain_text(hops.drop_last())
    } else {
        chain_text(hops.drop_last()) + hop_separator() + hops.last()
    }
}

/// The texts of an error's `source()` chain, outermost first, as plain sequences.
pub open spec fn hop_texts(hops: Seq<String>) -> Seq<Seq<char>> {
    hops.map_values(|h: String| h@)
}

/// Renders an error and its cause chain as `a: b: c`.
///
/// `hops` holds the text of the error and of each `source()` below it, outermost first. A hop
/// whose text equals the previous one (a transparent wrapper) is printed once.
pub fn chain(hops: &Vec<String>) -> (rendered: String)
    ensures
        rendered@ == chain_text(hop_texts(hops@)),
{
    let ghost texts = hop_texts(hops@);
    let mut rendered = String::new();
    if hops.len() == 0 {
        return rendered;
    }
    rendered.append(hops[0].as_str());
    assert(texts.take(1) =~= seq![texts[0]]);
    let mut i: usize = 1;
    while i < hops.len()
        invariant
            1 <= i <= hops.len(),
            texts == hop_texts(hops@),
            rendered@ == chain_text(texts.take(i as int)),
        decreases hops.len() - i,
    {
        assert(texts.take(i + 1).drop_last() =~= texts.take(i as int));
        if hops[i] != hops[i - 1] {
            proof {
                reveal_strlit(": ");
            }
            rendered.append(": ");
            rendered.append(hops[i].as_str());
        }
        i = i + 1;
    }
    assert(texts.take(hops.len() as int) =~= texts);
    rendered
}

/// Every kind maps to a status in the 4xx or 5xx family, and it is a client error exactly when
/// its status is below 500.
pub proof fn law_status_family(kind: ErrorKind)
    ensures
        400 <= kind.http_status() < 600,
        kind.is_client_error() <==> kind.http_status() < 500,
{
}

/// A kind that is retryable by default is never a client error, except `RateLimited`.
pub proof fn law_retryable_kinds_are_not_client_errors(kind: ErrorKind)
    ensures
        kind.default_retryable() ==> (kind == ErrorKind::RateLimited || !kind.is_client_error()),
{
}

/// Whether a text is `snake_case`: lower-case ASCII letters and underscores only.
pub open spec fn is_snake_case(text: Seq<char>) -> bool {
    forall|i: int| 0 <= i < text.len() ==> ('a' <= #[trigger] text[i] <= 'z' || text[i] == '_')
}

/// Every kind's stable identifier is `snake_case`, and no two kinds share one.
pub proof fn law_kind_identifiers_are_unique_snake_case(a: ErrorKind, b: ErrorKind)
    ensures
        is_snake_case(a.as_str()@),
        a != b ==> a.as_str()@ != b.as_str()@,
{
    reveal_strlit("invalid_input");
    reveal_strlit("unauthorized");
    reveal_strlit("forbidden");
    reveal_strlit("not_found");
    reveal_strlit("conflict");
    reveal_strlit("payload_too_large");
    reveal_strlit("rate_limited");
    reveal_strlit("timeout");
    reveal_strlit("unavailable");
    reveal_strlit("internal");
    if a != b {
        if a.as_str()@ == b.as_str()@ {
            assert(a.as_str()@[0] == b.as_str()@[0]);
            assert(a.as_str()@[1] == b.as_str()@[1]);
            assert(a.as_str()@.len() == b.as_str()@.len());
        }
    }
}

/// A chain of one error renders as that error's own text.
pub proof fn law_chain_of_one_hop(text: Seq<char>)
    ensures
        chain_text(seq![text]) == text,
{
}

/// Appending a hop to a chain of at least one hop appends `": "` and the hop's text, unless the
/// hop repeats the text of the hop before it, which leaves the rendering as it was. No hop is
/// ever dropped otherwise, however deep the chain.
pub proof fn law_chain_appends_each_new_hop(hops: Seq<Seq<char>>, hop: Seq<char>)
    requires
        hops.len() > 0,
    ensures
        hop != hops.last() ==> chain_text(hops.push(hop)) == chain_text(hops) + seq![':', ' ']
            + hop,
        hop == hops.last() ==> chain_text(hops.push(hop)) == chain_text(hops),
{
    assert(hops.push(hop).drop_last() =~= hops);
}

} // verus!
