use std::fmt;

use acme_svc::error::{chain, ErrorKind, ErrorSource, Severity};

/// A hand-rolled error so the test needs no extra dependency.
#[derive(Debug)]
struct Layer {
    text: &'static str,
    source: Option<Box<Self>>,
}

impl fmt::Display for Layer {
    fn fmt(&self, f: &mut fmt::Formatter<'_>) -> fmt::Result {
        f.write_str(self.text)
    }
}

impl std::error::Error for Layer {
    fn source(&self) -> Option<&(dyn std::error::Error + 'static)> {
        self.source
            .as_deref()
            .map(|s| -> &(dyn std::error::Error + 'static) { s })
    }
}

fn layer(text: &'static str, source: Option<Layer>) -> Layer {
    Layer {
        text,
        source: source.map(Box::new),
    }
}

/// The text of `error` and of every `source()` below it, outermost first.
fn hops(error: &dyn std::error::Error) -> Vec<String> {
    let mut texts = vec![error.to_string()];
    let mut cursor = error.source();
    while let Some(cause) = cursor {
        texts.push(cause.to_string());
        cursor = cause.source();
    }
    texts
}

#[test]
fn chain_joins_every_hop_with_a_colon() {
    let err = layer(
        "service failed",
        Some(layer("failed to bind", Some(layer("address in use", None)))),
    );
    assert_eq!(
        chain(&hops(&err)),
        "service failed: failed to bind: address in use"
    );
}

#[test]
fn chain_folds_a_hop_that_repeats_the_previous_text() {
    let err = layer("same", Some(layer("same", Some(layer("root", None)))));
    assert_eq!(chain(&hops(&err)), "same: root");
}

#[test]
fn chain_of_a_single_error_is_its_display() {
    let err = layer("alone", None);
    assert_eq!(chain(&hops(&err)), "alone");
}

#[test]
fn chain_prints_a_repeated_text_again_once_something_else_came_between() {
    let hops = vec!["a".to_string(), "b".to_string(), "a".to_string(), "a".to_string()];
    assert_eq!(chain(&hops), "a: b: a");
    assert_eq!(chain(&Vec::new()), "");
}

#[test]
fn every_kind_maps_to_a_distinct_status_family() {
    for kind in ErrorKind::ALL {
        let status = kind.http_status();
        assert!((400..600).contains(&status), "{}: {status}", kind.as_str());
        assert_eq!(kind.is_client_error(), status < 500, "{}", kind.as_str());
    }
}

#[test]
fn retryable_kinds_are_never_client_errors_except_rate_limit() {
    for kind in ErrorKind::ALL {
        if kind.default_retryable() {
            assert!(
                kind == ErrorKind::RateLimited || !kind.is_client_error(),
                "{}",
                kind.as_str()
            );
        }
    }
}

#[test]
fn as_str_is_unique_and_snake_case() {
    let mut seen = std::collections::HashSet::new();
    for kind in ErrorKind::ALL {
        let s = kind.as_str();
        assert!(s.chars().all(|c| c.is_ascii_lowercase() || c == '_'), "{s}");
        assert!(seen.insert(s), "duplicate {s}");
    }
}

#[test]
fn the_kind_tables_hold_their_exact_values() {
    let expected: [(ErrorKind, u16, &str, &str, ErrorSource, bool, Severity); 10] = [
        (ErrorKind::InvalidInput, 400, "Invalid input", "invalid_input", ErrorSource::Client, false, Severity::Debug),
        (ErrorKind::PayloadTooLarge, 413, "Payload too large", "payload_too_large", ErrorSource::Client, false, Severity::Debug),
        (ErrorKind::Unauthorized, 401, "Unauthorized", "unauthorized", ErrorSource::Client, false, Severity::Debug),
        (ErrorKind::Forbidden, 403, "Forbidden", "forbidden", ErrorSource::Client, false, Severity::Debug),
        (ErrorKind::NotFound, 404, "Not found", "not_found", ErrorSource::Client, false, Severity::Debug),
        (ErrorKind::Conflict, 409, "Conflict", "conflict", ErrorSource::Client, false, Severity::Info),
        (ErrorKind::RateLimited, 429, "Rate limited", "rate_limited", ErrorSource::Client, true, Severity::Info),
        (ErrorKind::Timeout, 504, "Upstream timeout", "timeout", ErrorSource::Dependency, true, Severity::Warn),
        (ErrorKind::Unavailable, 503, "Service unavailable", "unavailable", ErrorSource::Dependency, true, Severity::Warn),
        (ErrorKind::Internal, 500, "Internal error", "internal", ErrorSource::Internal, false, Severity::Error),
    ];
    for (kind, status, title, slug, source, retryable, severity) in expected {
        assert_eq!(kind.http_status(), status);
        assert_eq!(kind.title(), title);
        assert_eq!(kind.as_str(), slug);
        assert_eq!(kind.default_source(), source);
        assert_eq!(kind.default_retryable(), retryable);
        assert_eq!(kind.severity(), severity);
    }
    assert_eq!(ErrorSource::Client.as_str(), "client");
    assert_eq!(ErrorSource::Dependency.as_str(), "dependency");
    assert_eq!(ErrorSource::Internal.as_str(), "internal");
    assert!(Severity::Debug < Severity::Info && Severity::Warn < Severity::Error);
}
