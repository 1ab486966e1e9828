//! The connector: the entry point's decisions, in order.
//!
//! One connection request runs: extract the target from the authority (a
//! missing hostname is fatal immediately), resolve the hostname under the
//! resolve timeout, turn the resolution's outcome into the attempt's
//! candidate list (consulting the fallback table), schedule the dials over
//! the candidates by the configured strategy, and hand the one established
//! stream — or the one aggregated failure — upward. The unverified shell
//! performs the lookup and the dials; every decision between them is here or
//! in the modules this one leans on.

use vstd::prelude::*;
use crate::authority::Authority;
use crate::candidate::Candidate;
use crate::config::ConnectorConfig;
use crate::error::ConnectError;
use crate::resolve::{plan_candidates, plan_matches, ResolveOutcome};

verus! {

/// What the shell is asked to resolve: the hostname, the port the candidates
/// will be dialed on, and the timeout bounding the lookup.
#[derive(Debug, PartialEq, Eq)]
pub struct ResolveRequest {
    pub hostname: String,
    pub port: u16,
    pub timeout_ms: u64,
}

/// One connector: its immutable configuration, shared by every connection
/// attempt issued through it. The connector keeps no other state between
/// calls, and never retains a stream after returning it.
pub struct Connector {
    pub config: ConnectorConfig,
}

impl Connector {
    pub fn new(config: ConnectorConfig) -> (r: Connector)
        ensures
            r.config == config,
    {
        Connector { config }
    }

    /// Begins one connection request: an authority without a hostname fails
    /// immediately with `MissingHostname` and nothing is attempted; otherwise
    /// the shell is told what to resolve and under which timeout.
    pub fn begin(&self, authority: &Authority) -> (r: Result<ResolveRequest, ConnectError>)
        ensures
            authority.hostname is None ==> (r matches Err(e) && e
                == ConnectError::MissingHostname),
            (authority.hostname matches Some(h) ==> (r matches Ok(q) && q.hostname == h && q.port
                == authority.port && q.timeout_ms == self.config.timeouts.resolve_ms)),
    {
        match &authority.hostname {
            None => Err(ConnectError::MissingHostname),
            Some(h) => Ok(
                ResolveRequest {
                    hostname: h.clone(),
                    port: authority.port,
                    timeout_ms: self.config.timeouts.resolve_ms,
                },
            ),
        }
    }

    /// Turns the resolution's outcome into the attempt's candidate list, under
    /// this connector's fallback table and fallback mode, or into the failure
    /// that ends the attempt before any dial.
    pub fn candidates_for(&self, hostname: &String, outcome: ResolveOutcome) -> (r: Result<
        Vec<Candidate>,
        ConnectError,
    >)
        ensures
            plan_matches(
                self.config.fallback_table,
                self.config.fallback_mode,
                *hostname,
                outcome,
                r,
            ),
    {
        plan_candidates(&self.config.fallback_table, self.config.fallback_mode, hostname, outcome)
    }
}

} // verus!
