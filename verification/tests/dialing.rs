//! The per-candidate dial machine and SNI selection.

use dialplan::candidate::Candidate;
use dialplan::dial::{
    sni_value, DialAttempt, DialStage, HandshakeEvent, TcpEvent, TlsConfigureEvent,
};
use dialplan::error::StageError;

fn plain(addr: &str) -> Candidate {
    Candidate::resolved(addr.to_string())
}

#[test]
fn dial_walks_tcp_then_configure_then_handshake() {
    let mut dial = DialAttempt::start(plain("203.0.113.5"));
    assert_eq!(*dial.stage(), DialStage::TcpConnect);
    dial.tcp_event(TcpEvent::Connected);
    assert_eq!(*dial.stage(), DialStage::TlsConfigure);
    dial.tls_configure_event(TlsConfigureEvent::Configured);
    assert_eq!(*dial.stage(), DialStage::TlsHandshake);
    dial.handshake_event(HandshakeEvent::Completed);
    assert_eq!(*dial.stage(), DialStage::Established);
}

#[test]
fn tcp_timeout_fails_without_reaching_tls() {
    let mut dial = DialAttempt::start(plain("203.0.113.5"));
    dial.tcp_event(TcpEvent::TimedOut);
    assert!(!matches!(*dial.stage(), DialStage::TlsConfigure));
    assert!(!matches!(*dial.stage(), DialStage::TlsHandshake));
    assert!(matches!(*dial.stage(), DialStage::Failed { .. }));
    assert_eq!(
        dial.into_failure(),
        StageError::TcpConnectTimedOut { candidate: plain("203.0.113.5") }
    );
}

#[test]
fn tcp_failure_keeps_its_cause() {
    let mut dial = DialAttempt::start(plain("203.0.113.5"));
    dial.tcp_event(TcpEvent::Failed { cause: "connection refused".to_string() });
    assert_eq!(
        dial.into_failure(),
        StageError::TcpConnectFailed {
            candidate: plain("203.0.113.5"),
            cause: "connection refused".to_string(),
        }
    );
}

#[test]
fn tls_configure_failure_is_tagged() {
    let mut dial = DialAttempt::start(plain("203.0.113.5"));
    dial.tcp_event(TcpEvent::Connected);
    dial.tls_configure_event(TlsConfigureEvent::Failed { cause: "bad context".to_string() });
    assert_eq!(
        dial.into_failure(),
        StageError::TlsConfigureFailed {
            candidate: plain("203.0.113.5"),
            cause: "bad context".to_string(),
        }
    );
}

#[test]
fn handshake_failure_is_tagged() {
    let mut dial = DialAttempt::start(plain("203.0.113.5"));
    dial.tcp_event(TcpEvent::Connected);
    dial.tls_configure_event(TlsConfigureEvent::Configured);
    dial.handshake_event(HandshakeEvent::Failed { cause: "alert received".to_string() });
    assert_eq!(
        dial.into_failure(),
        StageError::TlsHandshakeFailed {
            candidate: plain("203.0.113.5"),
            cause: "alert received".to_string(),
        }
    );
}

#[test]
fn handshake_timeout_is_tagged() {
    let mut dial = DialAttempt::start(plain("203.0.113.5"));
    dial.tcp_event(TcpEvent::Connected);
    dial.tls_configure_event(TlsConfigureEvent::Configured);
    dial.handshake_event(HandshakeEvent::TimedOut);
    assert_eq!(
        dial.into_failure(),
        StageError::TlsHandshakeTimedOut { candidate: plain("203.0.113.5") }
    );
}

#[test]
fn sni_override_wins_whatever_the_policy() {
    let c = Candidate::with_sni("203.0.113.9".to_string(), "cdn.test".to_string());
    assert_eq!(sni_value(&c, &"blocked.test".to_string(), true), "cdn.test");
    assert_eq!(sni_value(&c, &"blocked.test".to_string(), false), "cdn.test");
}

#[test]
fn sni_defaults_to_hostname_when_verifying() {
    let c = plain("203.0.113.5");
    assert_eq!(sni_value(&c, &"example.test".to_string(), true), "example.test");
}

#[test]
fn sni_is_the_placeholder_when_not_verifying() {
    let c = plain("203.0.113.5");
    assert_eq!(sni_value(&c, &"example.test".to_string(), false), "www.example.com");
}
