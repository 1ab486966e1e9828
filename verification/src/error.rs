//! The failure taxonomy. Per-candidate stage failures are recovered by the
//! scheduler and never cross the connector boundary one by one; the caller
//! sees a single value carrying the hostname and the aggregated causes.

use vstd::prelude::*;
use crate::candidate::Candidate;

verus! {

/// Why one candidate's dial failed, tagged with the stage that failed and the
/// candidate it was dialing.
#[derive(Debug, PartialEq, Eq)]
pub enum StageError {
    TcpConnectFailed { candidate: Candidate, cause: String },
    TcpConnectTimedOut { candidate: Candidate },
    TlsConfigureFailed { candidate: Candidate, cause: String },
    TlsHandshakeFailed { candidate: Candidate, cause: String },
    TlsHandshakeTimedOut { candidate: Candidate },
}

impl StageError {
    /// The candidate whose dial this error ended.
    pub open spec fn spec_candidate(self) -> Candidate {
        match self {
            StageError::TcpConnectFailed { candidate, .. } => candidate,
            StageError::TcpConnectTimedOut { candidate } => candidate,
            StageError::TlsConfigureFailed { candidate, .. } => candidate,
            StageError::TlsHandshakeFailed { candidate, .. } => candidate,
            StageError::TlsHandshakeTimedOut { candidate } => candidate,
        }
    }

    /// The candidate whose dial this error ended.
    pub fn candidate(&self) -> (r: &Candidate)
        ensures
            *r == self.spec_candidate(),
    {
        match self {
            StageError::TcpConnectFailed { candidate, .. } => candidate,
            StageError::TcpConnectTimedOut { candidate } => candidate,
            StageError::TlsConfigureFailed { candidate, .. } => candidate,
            StageError::TlsHandshakeFailed { candidate, .. } => candidate,
            StageError::TlsHandshakeTimedOut { candidate } => candidate,
        }
    }
}

impl Clone for StageError {
    fn clone(&self) -> (r: Self)
        ensures
            r == *self,
    {
        match self {
            StageError::TcpConnectFailed { candidate, cause } => StageError::TcpConnectFailed {
                candidate: candidate.clone(),
                cause: cause.clone(),
            },
            StageError::TcpConnectTimedOut { candidate } => StageError::TcpConnectTimedOut {
                candidate: candidate.clone(),
            },
            StageError::TlsConfigureFailed { candidate, cause } => StageError::TlsConfigureFailed {
                candidate: candidate.clone(),
                cause: cause.clone(),
            },
            StageError::TlsHandshakeFailed { candidate, cause } => StageError::TlsHandshakeFailed {
                candidate: candidate.clone(),
                cause: cause.clone(),
            },
            StageError::TlsHandshakeTimedOut { candidate } => StageError::TlsHandshakeTimedOut {
                candidate: candidate.clone(),
            },
        }
    }
}

/// Why resolution produced no usable addresses. Failure and timeout are
/// treated identically by the caller (both consult the fallback table); the
/// distinction is carried for diagnostics only.
#[derive(Debug, PartialEq, Eq)]
pub enum ResolveError {
    ResolutionFailed { cause: String },
    ResolutionTimedOut,
}

impl Clone for ResolveError {
    fn clone(&self) -> (r: Self)
        ensures
            r == *self,
    {
        match self {
            ResolveError::ResolutionFailed { cause } => ResolveError::ResolutionFailed {
                cause: cause.clone(),
            },
            ResolveError::ResolutionTimedOut => ResolveError::ResolutionTimedOut,
        }
    }
}

/// The single failure value that crosses the connector boundary.
#[derive(Debug, PartialEq, Eq)]
pub enum ConnectError {
    /// The authority named no hostname; nothing was attempted.
    MissingHostname,
    /// Resolution yielded nothing and the fallback table had nothing usable
    /// for the hostname, so there was no candidate to dial. Carries the
    /// resolution failure, if resolution (rather than an empty fallback entry
    /// after a lookup that was never needed) was the cause.
    NoCandidatesAvailable { hostname: String, resolution: Option<ResolveError> },
    /// Every candidate was dialed and every dial failed; the stage errors are
    /// aggregated in the order the failures were observed.
    AllCandidatesFailed { hostname: String, attempts: usize, failures: Vec<StageError> },
}

} // verus!
