//! One candidate's dial, stage by stage.
//!
//! A dial is a TCP connect, a TLS configuration, and a TLS handshake, in that
//! order, each independently failable and independently timeout-bounded. The
//! sockets and timers live with the unverified shell; the shell reports each
//! stage's outcome as an event, and this machine decides what the event means:
//! which stage (if any) runs next, and how a failure is tagged. A stage that
//! fails or times out ends the dial — in particular, a TCP connect that times
//! out never reaches the TLS stages.

use vstd::prelude::*;
use crate::candidate::Candidate;
use crate::error::StageError;

verus! {

/// What the shell observed for the TCP connect to `candidate.address:port`.
#[derive(Debug, PartialEq, Eq)]
pub enum TcpEvent {
    Connected,
    Failed { cause: String },
    TimedOut,
}

/// What the shell observed while configuring the TLS session (building the
/// per-connection TLS state with the chosen SNI); configuration has no
/// timeout of its own, it is local work.
#[derive(Debug, PartialEq, Eq)]
pub enum TlsConfigureEvent {
    Configured,
    Failed { cause: String },
}

/// What the shell observed for the TLS handshake.
#[derive(Debug, PartialEq, Eq)]
pub enum HandshakeEvent {
    Completed,
    Failed { cause: String },
    TimedOut,
}

/// Where a dial stands: the stage whose outcome is awaited, or how it ended.
#[derive(Debug, PartialEq, Eq)]
pub enum DialStage {
    TcpConnect,
    TlsConfigure,
    TlsHandshake,
    Established,
    Failed { error: StageError },
}

/// The dial of one candidate. Events may only be fed to the stage the dial is
/// in, so a dial that has failed (or was never TCP-connected) can never reach
/// a TLS stage.
pub struct DialAttempt {
    candidate: Candidate,
    stage: DialStage,
}

impl DialAttempt {
    /// The candidate this dial is for.
    pub closed spec fn spec_candidate(self) -> Candidate {
        self.candidate
    }

    /// The stage this dial is in.
    pub closed spec fn spec_stage(self) -> DialStage {
        self.stage
    }

    /// Begins dialing `candidate`: the TCP connect runs first.
    pub fn start(candidate: Candidate) -> (r: DialAttempt)
        ensures
            r.spec_candidate() == candidate,
            r.spec_stage() == DialStage::TcpConnect,
    {
        DialAttempt { candidate, stage: DialStage::TcpConnect }
    }

    /// The candidate this dial is for.
    pub fn candidate(&self) -> (r: &Candidate)
        ensures
            *r == self.spec_candidate(),
    {
        &self.candidate
    }

    /// The stage this dial is in.
    pub fn stage(&self) -> (r: &DialStage)
        ensures
            *r == self.spec_stage(),
    {
        &self.stage
    }

    /// Applies the TCP connect's outcome: success moves the dial to TLS
    /// configuration; a failure or a timeout ends the dial with the matching
    /// TCP-stage tag, and no TLS stage is reached for this candidate.
    pub fn tcp_event(&mut self, event: TcpEvent)
        requires
            old(self).spec_stage() == DialStage::TcpConnect,
        ensures
            final(self).spec_candidate() == old(self).spec_candidate(),
            event is Connected ==> final(self).spec_stage() == DialStage::TlsConfigure,
            (event matches TcpEvent::Failed { cause } ==> final(self).spec_stage()
                == (DialStage::Failed {
                error: StageError::TcpConnectFailed { candidate: old(self).spec_candidate(), cause },
            })),
            event is TimedOut ==> final(self).spec_stage() == (DialStage::Failed {
                error: StageError::TcpConnectTimedOut { candidate: old(self).spec_candidate() },
            }),
    {
        match event {
            TcpEvent::Connected => {
                self.stage = DialStage::TlsConfigure;
            },
            TcpEvent::Failed { cause } => {
                self.stage = DialStage::Failed {
                    error: StageError::TcpConnectFailed { candidate: self.candidate.clone(), cause },
                };
            },
            TcpEvent::TimedOut => {
                self.stage = DialStage::Failed {
                    error: StageError::TcpConnectTimedOut { candidate: self.candidate.clone() },
                };
            },
        }
    }

    /// Applies the TLS configuration's outcome: success moves the dial to the
    /// handshake; a failure ends it with the TLS-configure tag.
    pub fn tls_configure_event(&mut self, event: TlsConfigureEvent)
        requires
            old(self).spec_stage() == DialStage::TlsConfigure,
        ensures
            final(self).spec_candidate() == old(self).spec_candidate(),
            event is Configured ==> final(self).spec_stage() == DialStage::TlsHandshake,
            (event matches TlsConfigureEvent::Failed { cause } ==> final(self).spec_stage()
                == (DialStage::Failed {
                error: StageError::TlsConfigureFailed {
                    candidate: old(self).spec_candidate(),
                    cause,
                },
            })),
    {
        match event {
            TlsConfigureEvent::Configured => {
                self.stage = DialStage::TlsHandshake;
            },
            TlsConfigureEvent::Failed { cause } => {
                self.stage = DialStage::Failed {
                    error: StageError::TlsConfigureFailed {
                        candidate: self.candidate.clone(),
                        cause,
                    },
                };
            },
        }
    }

    /// Applies the handshake's outcome: success establishes the stream; a
    /// failure or a timeout ends the dial with the matching handshake tag.
    pub fn handshake_event(&mut self, event: HandshakeEvent)
        requires
            old(self).spec_stage() == DialStage::TlsHandshake,
        ensures
            final(self).spec_candidate() == old(self).spec_candidate(),
            event is Completed ==> final(self).spec_stage() == DialStage::Established,
            (event matches HandshakeEvent::Failed { cause } ==> final(self).spec_stage()
                == (DialStage::Failed {
                error: StageError::TlsHandshakeFailed {
                    candidate: old(self).spec_candidate(),
                    cause,
                },
            })),
            event is TimedOut ==> final(self).spec_stage() == (DialStage::Failed {
                error: StageError::TlsHandshakeTimedOut { candidate: old(self).spec_candidate() },
            }),
    {
        match event {
            HandshakeEvent::Completed => {
                self.stage = DialStage::Established;
            },
            HandshakeEvent::Failed { cause } => {
                self.stage = DialStage::Failed {
                    error: StageError::TlsHandshakeFailed {
                        candidate: self.candidate.clone(),
                        cause,
                    },
                };
            },
            HandshakeEvent::TimedOut => {
                self.stage = DialStage::Failed {
                    error: StageError::TlsHandshakeTimedOut { candidate: self.candidate.clone() },
                };
            },
        }
    }

    /// Hands out how a finished dial failed.
    pub fn into_failure(self) -> (r: StageError)
        requires
            self.spec_stage() matches DialStage::Failed { .. },
        ensures
            self.spec_stage() == (DialStage::Failed { error: r }),
    {
        match self.stage {
            DialStage::Failed { error } => error,
            _ => unreached(),
        }
    }
}

/// The fixed, innocuous-looking name sent as SNI when certificate
/// verification is disabled and the candidate carries no override: with
/// verification off the wire SNI is only a censorship-evasion signal, and a
/// neutral value avoids leaking the real target hostname.
pub open spec fn placeholder_sni() -> Seq<char> {
    "www.example.com"@
}

/// The SNI value sent on the wire for one dial: the candidate's explicit
/// override when it carries one; otherwise the authority's hostname, except
/// that with certificate verification disabled the fixed placeholder is sent
/// instead.
pub open spec fn spec_sni(candidate: Candidate, host: Seq<char>, verify_certificates: bool) -> Seq<
    char,
> {
    match candidate.sni_override {
        Some(s) => s@,
        None => if verify_certificates {
            host
        } else {
            placeholder_sni()
        },
    }
}

/// Picks the wire-level SNI value for dialing `candidate` toward `host`.
pub fn sni_value(candidate: &Candidate, host: &String, verify_certificates: bool) -> (r: String)
    ensures
        r@ == spec_sni(*candidate, host@, verify_certificates),
{
    match &candidate.sni_override {
        Some(s) => s.clone(),
        None => if verify_certificates {
            host.clone()
        } else {
            "www.example.com".to_owned()
        },
    }
}

/// SNI override law: a candidate that carries an explicit override has exactly
/// that override sent on the wire, whatever the authority's hostname and
/// whatever the certificate policy.
pub proof fn lemma_sni_override_wins(
    candidate: Candidate,
    host: Seq<char>,
    verify_certificates: bool,
    s: String,
)
    requires
        candidate.sni_override == Some(s),
    ensures
        spec_sni(candidate, host, verify_certificates) == s@,
{
}

} // verus!
