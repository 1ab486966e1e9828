//! From a resolution outcome to the candidate list of one attempt.
//!
//! Resolution itself is a capability of the unverified shell (a pluggable
//! hostname-to-addresses function, bounded by the configured timeout). The
//! shell reports what happened as a [`ResolveOutcome`]; everything decided
//! from that outcome — whether it counts as success, which candidates are
//! dialed, when the fallback table takes over, and how a fruitless resolution
//! is reported — is verified here.

use vstd::prelude::*;
use crate::candidate::{clone_candidates, Candidate, FallbackTable};
use crate::config::FallbackMode;
use crate::error::{ConnectError, ResolveError};

verus! {

/// What one bounded resolution attempt came to: an ordered address list, a
/// lookup error, or expiry of the resolve timeout.
#[derive(Debug, PartialEq, Eq)]
pub enum ResolveOutcome {
    Resolved { addresses: Vec<String> },
    Failed { cause: String },
    TimedOut,
}

/// Success means one or more addresses: an empty answer is not a valid
/// success and is treated exactly like a failed lookup.
pub open spec fn resolve_succeeded(outcome: ResolveOutcome) -> bool {
    outcome matches ResolveOutcome::Resolved { addresses } && addresses@.len() > 0
}

/// The diagnostic cause recorded when resolution succeeded with zero
/// addresses.
pub open spec fn empty_result_cause() -> Seq<char> {
    "resolver returned no addresses"@
}

/// How a fruitless outcome is carried in diagnostics: a lookup error keeps its
/// cause, a timeout stays a timeout, and an empty answer becomes a failure
/// with a fixed cause.
pub open spec fn matches_resolve_failure(outcome: ResolveOutcome, e: ResolveError) -> bool {
    match outcome {
        ResolveOutcome::Resolved { .. } => e matches ResolveError::ResolutionFailed {
            cause,
        } && cause@ == empty_result_cause(),
        ResolveOutcome::Failed { cause } => e == ResolveError::ResolutionFailed { cause },
        ResolveOutcome::TimedOut => e == ResolveError::ResolutionTimedOut,
    }
}

/// Turns a fruitless outcome into its diagnostic form.
pub fn classify_resolve_failure(outcome: ResolveOutcome) -> (r: ResolveError)
    requires
        !resolve_succeeded(outcome),
    ensures
        matches_resolve_failure(outcome, r),
{
    match outcome {
        ResolveOutcome::Resolved { .. } => ResolveError::ResolutionFailed {
            cause: "resolver returned no addresses".to_owned(),
        },
        ResolveOutcome::Failed { cause } => ResolveError::ResolutionFailed { cause },
        ResolveOutcome::TimedOut => ResolveError::ResolutionTimedOut,
    }
}

/// Resolved addresses as candidates: each address in resolution order, none
/// with an SNI override.
pub open spec fn as_resolved_candidates(addresses: Seq<String>) -> Seq<Candidate> {
    Seq::new(addresses.len(), |i: int| Candidate { address: addresses[i], sni_override: None })
}

/// What the fallback table contributes for `host`: its entry, or nothing.
pub open spec fn fallback_or_empty(table: FallbackTable, host: Seq<char>) -> Seq<Candidate> {
    match table.spec_lookup(host) {
        Some(fb) => fb,
        None => Seq::empty(),
    }
}

/// The attempt's list is exactly the hostname's fallback entry — non-empty,
/// and nothing besides it.
pub open spec fn fallback_exact(table: FallbackTable, host: Seq<char>, c: Seq<Candidate>) -> bool {
    table.spec_lookup(host) matches Some(fb) && fb.len() > 0 && c == fb
}

/// Full characterization of [`plan_candidates`]: given the table, the fallback
/// mode, the hostname and the resolution outcome, exactly which candidate list
/// (never empty) or which failure comes out.
pub open spec fn plan_matches(
    table: FallbackTable,
    mode: FallbackMode,
    hostname: String,
    outcome: ResolveOutcome,
    r: Result<Vec<Candidate>, ConnectError>,
) -> bool {
    match r {
        Ok(c) => {
            &&& c@.len() > 0
            &&& (resolve_succeeded(outcome) ==> c@ == as_resolved_candidates(outcome->addresses@)
                + (if mode is AlwaysAppend {
                    fallback_or_empty(table, hostname@)
                } else {
                    Seq::<Candidate>::empty()
                }))
            &&& (!resolve_succeeded(outcome) ==> fallback_exact(table, hostname@, c@))
        },
        Err(e) => {
            &&& !resolve_succeeded(outcome)
            &&& fallback_or_empty(table, hostname@).len() == 0
            &&& e matches ConnectError::NoCandidatesAvailable { hostname: h, resolution }
            &&& h == hostname
            &&& resolution matches Some(re) && matches_resolve_failure(outcome, re)
        },
    }
}

/// Builds the candidate list for one attempt, or the failure that ends the
/// attempt before any dial.
///
/// On a successful resolution the resolved addresses are dialed in resolution
/// order; under `AlwaysAppend` the hostname's fallback entry is appended after
/// them as low-priority extras. On a failed, timed-out or empty resolution the
/// hostname's fallback entry replaces them entirely — exactly that entry, and
/// no other candidate — and if the table has nothing usable the attempt fails
/// with `NoCandidatesAvailable` carrying the resolution failure, before any
/// dial.
pub fn plan_candidates(
    table: &FallbackTable,
    mode: FallbackMode,
    hostname: &String,
    outcome: ResolveOutcome,
) -> (r: Result<Vec<Candidate>, ConnectError>)
    ensures
        plan_matches(*table, mode, *hostname, outcome, r),
{
    match outcome {
        ResolveOutcome::Resolved { addresses } => {
            if addresses.len() > 0 {
                let mut c = resolved_candidates(&addresses);
                let ghost base = c@;
                match mode {
                    FallbackMode::AlwaysAppend => {
                        match table.lookup(hostname) {
                            Some(fb) => {
                                let mut extra = clone_candidates(fb);
                                c.append(&mut extra);
                            },
                            None => {
                                assert(c@ =~= base + fallback_or_empty(*table, hostname@));
                            },
                        }
                    },
                    FallbackMode::OnFailureOnly => {
                        assert(c@ =~= base + Seq::<Candidate>::empty());
                    },
                }
                Ok(c)
            } else {
                fallback_path(table, hostname, ResolveOutcome::Resolved { addresses })
            }
        },
        ResolveOutcome::Failed { cause } => {
            fallback_path(table, hostname, ResolveOutcome::Failed { cause })
        },
        ResolveOutcome::TimedOut => fallback_path(table, hostname, ResolveOutcome::TimedOut),
    }
}

/// The fallback-only path: resolution yielded nothing, so the table's entry is
/// the whole candidate list, or the attempt fails.
fn fallback_path(table: &FallbackTable, hostname: &String, outcome: ResolveOutcome) -> (r: Result<
    Vec<Candidate>,
    ConnectError,
>)
    requires
        !resolve_succeeded(outcome),
    ensures
        plan_matches(*table, FallbackMode::OnFailureOnly, *hostname, outcome, r),
        plan_matches(*table, FallbackMode::AlwaysAppend, *hostname, outcome, r),
{
    let usable = match table.lookup(hostname) {
        Some(fb) => {
            if fb.len() > 0 {
                Some(clone_candidates(fb))
            } else {
                None
            }
        },
        None => None,
    };
    match usable {
        Some(c) => Ok(c),
        None => Err(
            ConnectError::NoCandidatesAvailable {
                hostname: hostname.clone(),
                resolution: Some(classify_resolve_failure(outcome)),
            },
        ),
    }
}

/// Each resolved address, in order, as a candidate without an override.
fn resolved_candidates(addresses: &Vec<String>) -> (r: Vec<Candidate>)
    ensures
        r@ == as_resolved_candidates(addresses@),
{
    let mut r: Vec<Candidate> = Vec::new();
    let mut i: usize = 0;
    while i < addresses.len()
        invariant
            i <= addresses.len(),
            r@.len() == i,
            forall|j: int|
                0 <= j < i ==> r@[j] == (Candidate {
                    address: addresses@[j],
                    sni_override: None,
                }),
        decreases addresses.len() - i,
    {
        r.push(Candidate::resolved(addresses[i].clone()));
        i = i + 1;
    }
    assert(r@ =~= as_resolved_candidates(addresses@));
    r
}

/// Fallback law: for a hostname with a non-empty fallback entry, a resolution
/// that fails, times out, or returns an empty list leaves the attempt dialing
/// exactly the fallback candidates, and no others.
pub proof fn lemma_fallback_candidates_exact(
    table: FallbackTable,
    mode: FallbackMode,
    hostname: String,
    outcome: ResolveOutcome,
    r: Result<Vec<Candidate>, ConnectError>,
    fb: Seq<Candidate>,
)
    requires
        plan_matches(table, mode, hostname, outcome, r),
        !resolve_succeeded(outcome),
        table.spec_lookup(hostname@) == Some(fb),
        fb.len() > 0,
    ensures
        (r matches Ok(c) && c@ == fb),
{
}

/// No-fallback law: for a hostname with no fallback entry, a fruitless
/// resolution fails the attempt with `NoCandidatesAvailable` — carrying the
/// resolution failure — before any dial.
pub proof fn lemma_no_fallback_no_dial(
    table: FallbackTable,
    mode: FallbackMode,
    hostname: String,
    outcome: ResolveOutcome,
    r: Result<Vec<Candidate>, ConnectError>,
)
    requires
        plan_matches(table, mode, hostname, outcome, r),
        !resolve_succeeded(outcome),
        table.spec_lookup(hostname@) is None,
    ensures
        ({
            &&& r matches Err(e)
            &&& e matches ConnectError::NoCandidatesAvailable { hostname: h, resolution }
            &&& h == hostname
            &&& resolution matches Some(re)
            &&& matches_resolve_failure(outcome, re)
        }),
{
}

} // verus!
