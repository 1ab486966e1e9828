//! The connection target: hostname, port, and whether the scheme implies TLS.

use vstd::prelude::*;

verus! {

/// What one connection request is for, extracted once from the request's URI
/// and immutable for the request's lifetime. A URI need not name a hostname
/// or a port: a missing hostname fails the request immediately, a missing
/// port defaults.
#[derive(Debug, PartialEq, Eq)]
pub struct Authority {
    pub hostname: Option<String>,
    pub port: u16,
    pub uses_tls: bool,
}

impl Authority {
    /// Builds the authority from what the URI gave: an absent port defaults
    /// to 443, the TLS port.
    pub fn from_parts(hostname: Option<String>, explicit_port: Option<u16>, uses_tls: bool) -> (r:
        Authority)
        ensures
            r.hostname == hostname,
            r.uses_tls == uses_tls,
            (explicit_port matches Some(p) ==> r.port == p),
            explicit_port is None ==> r.port == 443,
    {
        let port = match explicit_port {
            Some(p) => p,
            None => 443,
        };
        Authority { hostname, port, uses_tls }
    }
}

impl Clone for Authority {
    fn clone(&self) -> (r: Self)
        ensures
            r == *self,
    {
        let hostname = match &self.hostname {
            Some(h) => Some(h.clone()),
            None => None,
        };
        Authority { hostname, port: self.port, uses_tls: self.uses_tls }
    }
}

} // verus!
