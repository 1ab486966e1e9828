//! Connector configuration: strategy, fallback policy, certificate policy and
//! per-stage timeouts. Built once, immutable, shared by every connection
//! attempt issued through one connector.

use vstd::prelude::*;
use crate::candidate::FallbackTable;

verus! {

/// How the candidates of one attempt are scheduled: walked in list order until
/// one succeeds, or all raced concurrently with the first success taken.
#[derive(Clone, Copy, Debug, PartialEq, Eq, Structural)]
pub enum SchedulingStrategy {
    Sequential,
    ConcurrentRace,
}

/// When fallback-table candidates join an attempt's list: only when
/// resolution fails (or times out, or returns nothing), or appended as
/// low-priority extras after a successful resolution as well.
#[derive(Clone, Copy, Debug, PartialEq, Eq, Structural)]
pub enum FallbackMode {
    OnFailureOnly,
    AlwaysAppend,
}

/// One timeout per stage, in milliseconds. Expiry of a stage's timeout is
/// equivalent to that stage failing; there is no aggregate per-call timeout.
#[derive(Clone, Copy, Debug, PartialEq, Eq, Structural)]
pub struct StageTimeouts {
    pub resolve_ms: u64,
    pub tcp_connect_ms: u64,
    pub tls_handshake_ms: u64,
}

impl Default for StageTimeouts {
    /// The stock per-stage budget: five seconds to resolve, five to complete
    /// the TCP connect, ten for the TLS handshake.
    fn default() -> (r: StageTimeouts)
        ensures
            r.resolve_ms == 5000,
            r.tcp_connect_ms == 5000,
            r.tls_handshake_ms == 10000,
    {
        StageTimeouts { resolve_ms: 5000, tcp_connect_ms: 5000, tls_handshake_ms: 10000 }
    }
}

/// Everything one connector instance decides with. The resolver capability
/// itself (a hostname-to-addresses function) lives with the unverified shell
/// that performs the lookup; this configuration carries only the policy the
/// library's decisions read.
pub struct ConnectorConfig {
    /// Fully enable or fully disable certificate verification. Disabling it is
    /// an explicit caller-opted trust bypass: hostname verification is off too,
    /// and the wire SNI degrades to a censorship-evasion signal.
    pub verify_certificates: bool,
    pub scheduling_strategy: SchedulingStrategy,
    pub fallback_mode: FallbackMode,
    pub timeouts: StageTimeouts,
    pub fallback_table: FallbackTable,
}

} // verus!
