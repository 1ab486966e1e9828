//! End-to-end connection scenarios: the connector's decisions composed the
//! way the shell drives them, with the dials' outcomes given.

use dialplan::authority::Authority;
use dialplan::candidate::{Candidate, FallbackTable};
use dialplan::config::{ConnectorConfig, FallbackMode, SchedulingStrategy, StageTimeouts};
use dialplan::connector::Connector;
use dialplan::dial::{sni_value, DialAttempt, DialStage, HandshakeEvent, TcpEvent, TlsConfigureEvent};
use dialplan::error::ConnectError;
use dialplan::resolve::ResolveOutcome;
use dialplan::schedule::{drive_sequential, CandidateOutcome};

fn connector_with(table: FallbackTable, verify: bool) -> Connector {
    Connector::new(ConnectorConfig {
        verify_certificates: verify,
        scheduling_strategy: SchedulingStrategy::Sequential,
        fallback_mode: FallbackMode::OnFailureOnly,
        timeouts: StageTimeouts::default(),
        fallback_table: table,
    })
}

#[test]
fn resolved_single_candidate_connects_in_one_attempt() {
    let connector = connector_with(FallbackTable::new(), true);
    let authority =
        Authority::from_parts(Some("example.test".to_string()), Some(443), true);
    let request = connector.begin(&authority).unwrap();
    assert_eq!(request.hostname, "example.test");
    assert_eq!(request.port, 443);

    let outcome = ResolveOutcome::Resolved { addresses: vec!["203.0.113.5".to_string()] };
    let candidates = connector.candidates_for(&request.hostname, outcome).unwrap();
    assert_eq!(candidates, vec![Candidate::resolved("203.0.113.5".to_string())]);

    let mut dial = DialAttempt::start(candidates[0].clone());
    dial.tcp_event(TcpEvent::Connected);
    dial.tls_configure_event(TlsConfigureEvent::Configured);
    dial.handshake_event(HandshakeEvent::Completed);
    assert_eq!(*dial.stage(), DialStage::Established);

    let s = drive_sequential(
        request.hostname,
        candidates,
        &vec![CandidateOutcome::Connected],
    )
    .unwrap();
    assert_eq!(s.winner, 0);
    assert_eq!(s.attempts, 1);
}

#[test]
fn timed_out_resolution_connects_through_the_fallback_sni() {
    let mut table = FallbackTable::new();
    table.insert(
        "blocked.test".to_string(),
        vec![Candidate::with_sni("203.0.113.9".to_string(), "cdn.test".to_string())],
    );
    let connector = connector_with(table, false);
    let authority =
        Authority::from_parts(Some("blocked.test".to_string()), Some(443), true);
    let request = connector.begin(&authority).unwrap();

    let candidates = connector.candidates_for(&request.hostname, ResolveOutcome::TimedOut).unwrap();
    assert_eq!(
        candidates,
        vec![Candidate::with_sni("203.0.113.9".to_string(), "cdn.test".to_string())]
    );

    let sni = sni_value(&candidates[0], &request.hostname, false);
    assert_eq!(sni, "cdn.test");

    let s = drive_sequential(
        request.hostname,
        candidates,
        &vec![CandidateOutcome::Connected],
    )
    .unwrap();
    assert_eq!(s.winner, 0);
    assert_eq!(s.attempts, 1);
}

#[test]
fn two_dead_addresses_fail_with_both_referenced() {
    let connector = connector_with(FallbackTable::new(), true);
    let authority = Authority::from_parts(Some("down.test".to_string()), Some(443), true);
    let request = connector.begin(&authority).unwrap();

    let outcome = ResolveOutcome::Resolved {
        addresses: vec!["198.51.100.1".to_string(), "198.51.100.2".to_string()],
    };
    let candidates = connector.candidates_for(&request.hostname, outcome).unwrap();
    assert_eq!(candidates.len(), 2);

    let mut outcomes = Vec::new();
    for candidate in &candidates {
        let mut dial = DialAttempt::start(candidate.clone());
        dial.tcp_event(TcpEvent::Failed { cause: "connection refused".to_string() });
        outcomes.push(CandidateOutcome::Failed { error: dial.into_failure() });
    }

    let e = drive_sequential(request.hostname, candidates, &outcomes).unwrap_err();
    match e {
        ConnectError::AllCandidatesFailed { hostname, attempts, failures } => {
            assert_eq!(hostname, "down.test");
            assert_eq!(attempts, 2);
            assert_eq!(failures.len(), 2);
            assert_eq!(failures[0].candidate().address, "198.51.100.1");
            assert_eq!(failures[1].candidate().address, "198.51.100.2");
        },
        other => panic!("unexpected failure: {:?}", other),
    }
}

#[test]
fn missing_hostname_fails_before_anything_is_attempted() {
    let connector = connector_with(FallbackTable::new(), true);
    let authority = Authority::from_parts(None, None, true);
    assert_eq!(authority.port, 443);
    let e = connector.begin(&authority).unwrap_err();
    assert_eq!(e, ConnectError::MissingHostname);
}
