//! Fallback table behavior and candidate planning.

use dialplan::candidate::{Candidate, FallbackTable};
use dialplan::config::FallbackMode;
use dialplan::error::{ConnectError, ResolveError};
use dialplan::resolve::{classify_resolve_failure, plan_candidates, ResolveOutcome};

fn table_with(host: &str, candidates: Vec<Candidate>) -> FallbackTable {
    let mut t = FallbackTable::new();
    t.insert(host.to_string(), candidates);
    t
}

#[test]
fn empty_table_has_no_entry() {
    let t = FallbackTable::new();
    assert!(t.lookup(&"example.test".to_string()).is_none());
}

#[test]
fn insert_then_lookup_returns_entry() {
    let t = table_with("example.test", vec![Candidate::resolved("203.0.113.7".to_string())]);
    let got = t.lookup(&"example.test".to_string()).unwrap();
    assert_eq!(got.len(), 1);
    assert_eq!(got[0].address, "203.0.113.7");
    assert!(got[0].sni_override.is_none());
}

#[test]
fn insert_replaces_previous_entry() {
    let mut t = table_with("example.test", vec![Candidate::resolved("203.0.113.7".to_string())]);
    t.insert(
        "example.test".to_string(),
        vec![Candidate::resolved("198.51.100.4".to_string())],
    );
    let got = t.lookup(&"example.test".to_string()).unwrap();
    assert_eq!(got.len(), 1);
    assert_eq!(got[0].address, "198.51.100.4");
}

#[test]
fn lookup_of_other_hostname_is_unaffected() {
    let mut t = table_with("one.test", vec![Candidate::resolved("203.0.113.1".to_string())]);
    t.insert("two.test".to_string(), vec![Candidate::resolved("203.0.113.2".to_string())]);
    assert_eq!(t.lookup(&"one.test".to_string()).unwrap()[0].address, "203.0.113.1");
    assert_eq!(t.lookup(&"two.test".to_string()).unwrap()[0].address, "203.0.113.2");
    assert!(t.lookup(&"three.test".to_string()).is_none());
}

#[test]
fn successful_resolution_dials_resolved_addresses_in_order() {
    let t = FallbackTable::new();
    let outcome = ResolveOutcome::Resolved {
        addresses: vec!["203.0.113.5".to_string(), "203.0.113.6".to_string()],
    };
    let c = plan_candidates(&t, FallbackMode::OnFailureOnly, &"example.test".to_string(), outcome)
        .unwrap();
    assert_eq!(
        c,
        vec![
            Candidate::resolved("203.0.113.5".to_string()),
            Candidate::resolved("203.0.113.6".to_string()),
        ]
    );
}

#[test]
fn always_append_adds_fallback_after_resolved() {
    let t = table_with(
        "example.test",
        vec![Candidate::with_sni("203.0.113.9".to_string(), "cdn.test".to_string())],
    );
    let outcome = ResolveOutcome::Resolved { addresses: vec!["203.0.113.5".to_string()] };
    let c = plan_candidates(&t, FallbackMode::AlwaysAppend, &"example.test".to_string(), outcome)
        .unwrap();
    assert_eq!(
        c,
        vec![
            Candidate::resolved("203.0.113.5".to_string()),
            Candidate::with_sni("203.0.113.9".to_string(), "cdn.test".to_string()),
        ]
    );
}

#[test]
fn always_append_without_entry_keeps_resolved_only() {
    let t = table_with("other.test", vec![Candidate::resolved("203.0.113.9".to_string())]);
    let outcome = ResolveOutcome::Resolved { addresses: vec!["203.0.113.5".to_string()] };
    let c = plan_candidates(&t, FallbackMode::AlwaysAppend, &"example.test".to_string(), outcome)
        .unwrap();
    assert_eq!(c, vec![Candidate::resolved("203.0.113.5".to_string())]);
}

#[test]
fn resolver_failure_uses_exactly_the_fallback_entry() {
    let fallback = vec![
        Candidate::with_sni("203.0.113.9".to_string(), "cdn.test".to_string()),
        Candidate::resolved("203.0.113.10".to_string()),
    ];
    let t = table_with("blocked.test", fallback.clone());
    let outcome = ResolveOutcome::Failed { cause: "lookup refused".to_string() };
    let c = plan_candidates(&t, FallbackMode::OnFailureOnly, &"blocked.test".to_string(), outcome)
        .unwrap();
    assert_eq!(c, fallback);
}

#[test]
fn resolver_timeout_uses_exactly_the_fallback_entry() {
    let fallback = vec![Candidate::with_sni("203.0.113.9".to_string(), "cdn.test".to_string())];
    let t = table_with("blocked.test", fallback.clone());
    let c = plan_candidates(
        &t,
        FallbackMode::AlwaysAppend,
        &"blocked.test".to_string(),
        ResolveOutcome::TimedOut,
    )
    .unwrap();
    assert_eq!(c, fallback);
}

#[test]
fn empty_resolution_counts_as_failure_and_uses_fallback() {
    let fallback = vec![Candidate::resolved("203.0.113.9".to_string())];
    let t = table_with("empty.test", fallback.clone());
    let outcome = ResolveOutcome::Resolved { addresses: vec![] };
    let c = plan_candidates(&t, FallbackMode::OnFailureOnly, &"empty.test".to_string(), outcome)
        .unwrap();
    assert_eq!(c, fallback);
}

#[test]
fn failure_without_fallback_gives_no_candidates_available() {
    let t = FallbackTable::new();
    let outcome = ResolveOutcome::Failed { cause: "lookup refused".to_string() };
    let e = plan_candidates(&t, FallbackMode::OnFailureOnly, &"lost.test".to_string(), outcome)
        .unwrap_err();
    assert_eq!(
        e,
        ConnectError::NoCandidatesAvailable {
            hostname: "lost.test".to_string(),
            resolution: Some(ResolveError::ResolutionFailed { cause: "lookup refused".to_string() }),
        }
    );
}

#[test]
fn timeout_without_fallback_reports_the_timeout() {
    let t = FallbackTable::new();
    let e = plan_candidates(
        &t,
        FallbackMode::AlwaysAppend,
        &"slow.test".to_string(),
        ResolveOutcome::TimedOut,
    )
    .unwrap_err();
    assert_eq!(
        e,
        ConnectError::NoCandidatesAvailable {
            hostname: "slow.test".to_string(),
            resolution: Some(ResolveError::ResolutionTimedOut),
        }
    );
}

#[test]
fn empty_fallback_entry_is_unusable() {
    let t = table_with("hollow.test", vec![]);
    let e = plan_candidates(
        &t,
        FallbackMode::OnFailureOnly,
        &"hollow.test".to_string(),
        ResolveOutcome::TimedOut,
    )
    .unwrap_err();
    assert!(matches!(e, ConnectError::NoCandidatesAvailable { .. }));
}

#[test]
fn empty_resolution_is_classified_with_a_fixed_cause() {
    let e = classify_resolve_failure(ResolveOutcome::Resolved { addresses: vec![] });
    assert_eq!(
        e,
        ResolveError::ResolutionFailed { cause: "resolver returned no addresses".to_string() }
    );
}
