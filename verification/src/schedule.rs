//! Scheduling the dials of one attempt across its candidates.
//!
//! Two strategies are supported. Sequential first-success walks the list in
//! order, at most one dial in flight, recording each failure and stopping at
//! the first success; exhausting the list aggregates the recorded failures.
//! Concurrent race starts every dial at once and takes the first attempt
//! observed to complete successfully — first to complete, not first to start,
//! and explicitly non-deterministic under true races — closing every other
//! established stream; only if every attempt fails are the failures
//! aggregated. The dials themselves run in the unverified shell; what is
//! decided from their outcomes is verified here.

use vstd::prelude::*;
use crate::candidate::Candidate;
use crate::error::{ConnectError, StageError};

verus! {

/// How one candidate's dial ended: an established stream, or a stage failure.
#[derive(Debug, PartialEq, Eq)]
pub enum CandidateOutcome {
    Connected,
    Failed { error: StageError },
}

/// Did this dial establish a stream?
pub open spec fn succeeded(outcome: CandidateOutcome) -> bool {
    outcome is Connected
}

/// Some dial in the list established a stream.
pub open spec fn any_success(outcomes: Seq<CandidateOutcome>) -> bool {
    exists|i: int| 0 <= i < outcomes.len() && succeeded(outcomes[i])
}

/// The position of the first success, or the length when every dial failed.
pub open spec fn first_success_index(outcomes: Seq<CandidateOutcome>) -> int
    decreases outcomes.len(),
{
    if outcomes.len() == 0 {
        0
    } else if succeeded(outcomes[0]) {
        0
    } else {
        1 + first_success_index(outcomes.drop_first())
    }
}

/// What [`first_success_index`] points at: a success with none before it, or
/// the end of an all-failed list.
pub proof fn lemma_first_success_index(outcomes: Seq<CandidateOutcome>)
    ensures
        0 <= first_success_index(outcomes) <= outcomes.len(),
        first_success_index(outcomes) < outcomes.len() ==> succeeded(
            outcomes[first_success_index(outcomes)],
        ),
        forall|i: int| 0 <= i < first_success_index(outcomes) ==> !succeeded(outcomes[i]),
        (first_success_index(outcomes) == outcomes.len()) <==> !any_success(outcomes),
    decreases outcomes.len(),
{
    if outcomes.len() == 0 {
    } else if succeeded(outcomes[0]) {
    } else {
        let rest = outcomes.drop_first();
        lemma_first_success_index(rest);
        assert forall|i: int| 0 <= i < first_success_index(outcomes) implies !succeeded(
            outcomes[i],
        ) by {
            if i > 0 {
                assert(rest[i - 1] == outcomes[i]);
            }
        }
        if first_success_index(outcomes) == outcomes.len() {
            assert forall|i: int| 0 <= i < outcomes.len() implies !succeeded(outcomes[i]) by {}
        } else {
            assert(rest[first_success_index(rest)] == outcomes[first_success_index(outcomes)]);
        }
    }
}

/// This dial failed, and exactly this error was recorded for it.
pub open spec fn failure_recorded(outcome: CandidateOutcome, e: StageError) -> bool {
    outcome == (CandidateOutcome::Failed { error: e })
}

/// The sequential first-success strategy over one attempt's candidates:
/// the next candidate to dial is always the first not yet tried, each failure
/// is recorded in order, and exhaustion aggregates every recorded failure.
#[derive(Debug)]
pub struct SequentialSchedule {
    hostname: String,
    candidates: Vec<Candidate>,
    pos: usize,
    failures: Vec<StageError>,
}

impl SequentialSchedule {
    /// The hostname the attempt is for, carried for diagnostics.
    pub closed spec fn spec_hostname(self) -> String {
        self.hostname
    }

    /// The attempt's candidates, in dial-priority order.
    pub closed spec fn spec_candidates(self) -> Seq<Candidate> {
        self.candidates@
    }

    /// How many dials have been attempted and failed so far.
    pub closed spec fn spec_pos(self) -> int {
        self.pos as int
    }

    /// The failures recorded so far, one per attempted candidate, in order.
    pub closed spec fn spec_failures(self) -> Seq<StageError> {
        self.failures@
    }

    /// One failure is on record for each candidate already tried, and there is
    /// at least one candidate.
    pub open spec fn wf(self) -> bool {
        &&& self.spec_pos() == self.spec_failures().len()
        &&& self.spec_pos() <= self.spec_candidates().len()
        &&& self.spec_candidates().len() > 0
    }

    /// Starts a sequential walk over `candidates`; an empty list is rejected
    /// immediately, before any dial.
    pub fn begin(hostname: String, candidates: Vec<Candidate>) -> (r: Result<
        SequentialSchedule,
        ConnectError,
    >)
        ensures
            candidates@.len() == 0 ==> (r matches Err(e) && e
                == (ConnectError::NoCandidatesAvailable { hostname, resolution: None })),
            candidates@.len() > 0 ==> (r matches Ok(s) && s.wf() && s.spec_hostname() == hostname
                && s.spec_candidates() == candidates@ && s.spec_pos() == 0),
    {
        if candidates.len() == 0 {
            Err(ConnectError::NoCandidatesAvailable { hostname, resolution: None })
        } else {
            Ok(SequentialSchedule { hostname, candidates, pos: 0, failures: Vec::new() })
        }
    }

    /// The candidate to dial next: the first one not yet tried, or nothing
    /// once the list is exhausted.
    pub fn next_candidate(&self) -> (r: Option<&Candidate>)
        requires
            self.wf(),
        ensures
            self.spec_pos() < self.spec_candidates().len() ==> (r matches Some(c) && *c
                == self.spec_candidates()[self.spec_pos()]),
            self.spec_pos() == self.spec_candidates().len() ==> r is None,
    {
        if self.pos < self.candidates.len() {
            Some(&self.candidates[self.pos])
        } else {
            None
        }
    }

    /// Records the current candidate's failure and moves on to the next.
    pub fn record_failure(&mut self, error: StageError)
        requires
            old(self).wf(),
            old(self).spec_pos() < old(self).spec_candidates().len(),
        ensures
            final(self).wf(),
            final(self).spec_hostname() == old(self).spec_hostname(),
            final(self).spec_candidates() == old(self).spec_candidates(),
            final(self).spec_pos() == old(self).spec_pos() + 1,
            final(self).spec_failures() == old(self).spec_failures().push(error),
    {
        let n = self.candidates.len();
        assert(self.pos < n);
        self.pos = self.pos + 1;
        self.failures.push(error);
    }

    /// How many dials have been attempted and failed so far.
    pub fn attempts(&self) -> (r: usize)
        ensures
            r == self.spec_pos(),
    {
        self.pos
    }

    /// Hands out the failures recorded so far, in order.
    pub fn into_failures(self) -> (r: Vec<StageError>)
        ensures
            r@ == self.spec_failures(),
    {
        self.failures
    }

    /// The aggregated failure of an exhausted walk: every candidate was tried,
    /// and every recorded failure is carried, in order.
    pub fn into_exhausted(self) -> (e: ConnectError)
        requires
            self.wf(),
            self.spec_pos() == self.spec_candidates().len(),
        ensures
            (e matches ConnectError::AllCandidatesFailed { hostname, attempts, failures }
                && hostname == self.spec_hostname() && attempts as int
                == self.spec_candidates().len() && failures@ == self.spec_failures()),
    {
        let SequentialSchedule { hostname, candidates: _, pos, failures } = self;
        ConnectError::AllCandidatesFailed { hostname, attempts: pos, failures }
    }
}

/// How a sequential walk that found a stream ended: which candidate won, how
/// many dials were attempted (the winner included), and the failures of every
/// earlier candidate, in order.
#[derive(Debug, PartialEq, Eq)]
pub struct SequentialSuccess {
    pub winner: usize,
    pub attempts: usize,
    pub failures_before: Vec<StageError>,
}

/// Full characterization of a sequential walk over per-candidate outcomes:
/// the winner is the first success, exactly winner + 1 dials are attempted in
/// list order, every earlier failure is recorded in order; with no success at
/// all, every candidate is attempted and every failure aggregated.
pub open spec fn sequential_spec(
    hostname: String,
    outcomes: Seq<CandidateOutcome>,
    r: Result<SequentialSuccess, ConnectError>,
) -> bool {
    match r {
        Ok(s) => {
            &&& any_success(outcomes)
            &&& s.winner as int == first_success_index(outcomes)
            &&& s.attempts as int == s.winner as int + 1
            &&& s.failures_before@.len() == s.winner as int
            &&& forall|j: int|
                0 <= j < s.winner as int ==> failure_recorded(outcomes[j], s.failures_before@[j])
        },
        Err(e) => {
            &&& !any_success(outcomes)
            &&& e matches ConnectError::AllCandidatesFailed { hostname: h, attempts, failures }
            &&& h == hostname
            &&& attempts as int == outcomes.len()
            &&& failures@.len() == outcomes.len()
            &&& forall|j: int| 0 <= j < outcomes.len() ==> failure_recorded(outcomes[j], failures@[j])
        },
    }
}

/// Walks the candidates in order against their dial outcomes, stopping at the
/// first success; `outcomes[i]` is how dialing `candidates[i]` ends.
///
/// This is the whole sequential strategy given the dials' results; a shell
/// that must interleave real dials drives [`SequentialSchedule`] step by step
/// to the same effect.
pub fn drive_sequential(
    hostname: String,
    candidates: Vec<Candidate>,
    outcomes: &Vec<CandidateOutcome>,
) -> (r: Result<SequentialSuccess, ConnectError>)
    requires
        candidates@.len() > 0,
        outcomes@.len() == candidates@.len(),
    ensures
        sequential_spec(hostname, outcomes@, r),
{
    let ghost gh: String = hostname;
    let ghost outs = outcomes@;
    let n = outcomes.len();
    let mut sched = match SequentialSchedule::begin(hostname, candidates) {
        Ok(s) => s,
        Err(_) => unreached(),
    };
    let mut i: usize = 0;
    while i < n
        invariant
            i <= n,
            outcomes@ == outs,
            outs.len() == n,
            sched.wf(),
            sched.spec_hostname() == gh,
            sched.spec_candidates().len() == n,
            sched.spec_pos() == i,
            forall|j: int| 0 <= j < i ==> !succeeded(outs[j]),
            forall|j: int| 0 <= j < i ==> failure_recorded(outs[j], sched.spec_failures()[j]),
        decreases n - i,
    {
        match &outcomes[i] {
            CandidateOutcome::Connected => {
                proof {
                    lemma_first_success_index(outs);
                    assert(succeeded(outs[i as int]));
                }
                return Ok(
                    SequentialSuccess {
                        winner: i,
                        attempts: i + 1,
                        failures_before: sched.into_failures(),
                    },
                );
            },
            CandidateOutcome::Failed { error } => {
                sched.record_failure(error.clone());
            },
        }
        i = i + 1;
    }
    Err(sched.into_exhausted())
}

/// Sequential first-success law: when only the dial of candidate `k`
/// succeeds, the walk makes exactly `k + 1` attempts, in list order, wins at
/// `k`, and has observed each of the `k` earlier candidates fail first.
pub proof fn lemma_sequential_only_k_succeeds(
    hostname: String,
    outcomes: Seq<CandidateOutcome>,
    k: int,
    r: Result<SequentialSuccess, ConnectError>,
)
    requires
        sequential_spec(hostname, outcomes, r),
        0 <= k < outcomes.len(),
        succeeded(outcomes[k]),
        forall|i: int| 0 <= i < outcomes.len() && i != k ==> !succeeded(outcomes[i]),
    ensures
        (r matches Ok(s) && s.winner as int == k && s.attempts as int == k + 1
            && s.failures_before@.len() == k && (forall|j: int|
            0 <= j < k ==> failure_recorded(outcomes[j], s.failures_before@[j]))),
{
    lemma_first_success_index(outcomes);
}

/// One completed dial of a concurrent race, as the shell observed it:
/// `index` names the candidate (its position in the attempt's list), and the
/// completions of a race are given in the order their outcomes were observed.
#[derive(Debug, PartialEq, Eq)]
pub struct RaceCompletion {
    pub index: usize,
    pub outcome: CandidateOutcome,
}

/// The outcomes of the completions, in observation order.
pub open spec fn race_outcomes(completions: Seq<RaceCompletion>) -> Seq<CandidateOutcome> {
    Seq::new(completions.len(), |i: int| completions[i].outcome)
}

/// The candidate indices of the completions that established a stream, in
/// observation order.
pub open spec fn connected_indices(completions: Seq<RaceCompletion>) -> Seq<usize>
    decreases completions.len(),
{
    if completions.len() == 0 {
        Seq::empty()
    } else {
        let pre = connected_indices(completions.drop_last());
        if succeeded(completions.last().outcome) {
            pre.push(completions.last().index)
        } else {
            pre
        }
    }
}

/// A list with no successful completion yields no connected index.
pub proof fn lemma_connected_indices_none(completions: Seq<RaceCompletion>)
    requires
        forall|j: int| 0 <= j < completions.len() ==> !succeeded(completions[j].outcome),
    ensures
        connected_indices(completions).len() == 0,
    decreases completions.len(),
{
    if completions.len() > 0 {
        lemma_connected_indices_none(completions.drop_last());
    }
}

/// Every successful completion's candidate index is among the connected
/// indices.
pub proof fn lemma_connected_indices_contains(completions: Seq<RaceCompletion>, j: int)
    requires
        0 <= j < completions.len(),
        succeeded(completions[j].outcome),
    ensures
        connected_indices(completions).contains(completions[j].index),
    decreases completions.len(),
{
    let pre = connected_indices(completions.drop_last());
    if j == completions.len() - 1 {
        assert(pre.push(completions.last().index)[pre.len() as int] == completions.last().index);
    } else {
        lemma_connected_indices_contains(completions.drop_last(), j);
        let witness = choose|w: int|
            0 <= w < pre.len() && pre[w] == completions.drop_last()[j].index;
        if succeeded(completions.last().outcome) {
            assert(pre.push(completions.last().index)[witness] == pre[witness]);
        }
    }
}

/// How a won race ended: the winning candidate's index, and the indices of
/// every other candidate whose dial also established a stream — those streams
/// are abandoned and must be closed.
#[derive(Debug, PartialEq, Eq)]
pub struct RaceSuccess {
    pub winner: usize,
    pub losers_to_close: Vec<usize>,
}

/// Full characterization of the race decision over the observed completions:
/// the winner is the candidate of the first completion observed to succeed,
/// every later established stream is listed for closure, and with no success
/// at all every completion's failure is aggregated in observation order.
pub open spec fn race_spec(
    hostname: String,
    completions: Seq<RaceCompletion>,
    r: Result<RaceSuccess, ConnectError>,
) -> bool {
    let outs = race_outcomes(completions);
    match r {
        Ok(s) => {
            &&& any_success(outs)
            &&& s.winner == completions[first_success_index(outs)].index
            &&& s.losers_to_close@ == connected_indices(
                completions.skip(first_success_index(outs) + 1),
            )
        },
        Err(e) => {
            &&& !any_success(outs)
            &&& e matches ConnectError::AllCandidatesFailed { hostname: h, attempts, failures }
            &&& h == hostname
            &&& attempts as int == completions.len()
            &&& failures@.len() == completions.len()
            &&& forall|j: int| 0 <= j < completions.len() ==> failure_recorded(outs[j], failures@[j])
        },
    }
}

/// Decides a concurrent race from its completions, given in the order the
/// shell observed them: the first success wins, every other established
/// stream is listed for closure, and if every dial failed the failures are
/// aggregated. Ties are broken by observation order alone, which under a true
/// race is non-deterministic; callers must not assume otherwise.
pub fn race_decide(hostname: String, completions: &Vec<RaceCompletion>) -> (r: Result<
    RaceSuccess,
    ConnectError,
>)
    requires
        completions@.len() > 0,
    ensures
        race_spec(hostname, completions@, r),
{
    let ghost comps = completions@;
    let ghost outs = race_outcomes(comps);
    let n = completions.len();
    let mut failures: Vec<StageError> = Vec::new();
    let mut i: usize = 0;
    while i < n
        invariant
            i <= n,
            completions@ == comps,
            comps.len() == n,
            outs == race_outcomes(comps),
            failures@.len() == i,
            forall|j: int| 0 <= j < i ==> !succeeded(outs[j]),
            forall|j: int| 0 <= j < i ==> failure_recorded(outs[j], failures@[j]),
        decreases n - i,
    {
        match &completions[i].outcome {
            CandidateOutcome::Connected => {
                proof {
                    lemma_first_success_index(outs);
                    assert(succeeded(outs[i as int]));
                }
                let winner = completions[i].index;
                let mut losers_to_close: Vec<usize> = Vec::new();
                let mut j: usize = i + 1;
                while j < n
                    invariant
                        i < n,
                        i + 1 <= j <= n,
                        completions@ == comps,
                        comps.len() == n,
                        losers_to_close@ == connected_indices(comps.subrange(i + 1, j as int)),
                    decreases n - j,
                {
                    let ghost before = comps.subrange(i + 1, j as int);
                    let ghost after = comps.subrange(i + 1, j + 1 as int);
                    proof {
                        assert(after.drop_last() =~= before);
                        assert(after.last() == comps[j as int]);
                    }
                    match &completions[j].outcome {
                        CandidateOutcome::Connected => {
                            losers_to_close.push(completions[j].index);
                        },
                        CandidateOutcome::Failed { .. } => {},
                    }
                    j = j + 1;
                }
                proof {
                    assert(comps.subrange(i + 1, n as int) =~= comps.skip(i + 1));
                }
                return Ok(RaceSuccess { winner, losers_to_close });
            },
            CandidateOutcome::Failed { error } => {
                failures.push(error.clone());
            },
        }
        i = i + 1;
    }
    Err(
        ConnectError::AllCandidatesFailed {
            hostname,
            attempts: n,
            failures,
        },
    )
}

/// Concurrent-race law, single success: when each candidate of an attempt
/// completes exactly once and exactly the dial of candidate `k` succeeds, the
/// race returns candidate `k` — wherever its completion fell in the
/// observation order — and no established stream is left to close.
pub proof fn lemma_race_single_success(
    hostname: String,
    completions: Seq<RaceCompletion>,
    n: int,
    k: int,
    r: Result<RaceSuccess, ConnectError>,
)
    requires
        race_spec(hostname, completions, r),
        forall|j: int| 0 <= j < completions.len() ==> 0 <= #[trigger] completions[j].index < n,
        forall|j1: int, j2: int|
            0 <= j1 < j2 < completions.len() ==> completions[j1].index != completions[j2].index,
        exists|j: int| 0 <= j < completions.len() && completions[j].index == k,
        0 <= k < n,
        forall|j: int|
            0 <= j < completions.len() ==> (succeeded(completions[j].outcome)
                <==> completions[j].index == k),
    ensures
        (r matches Ok(s) && s.winner == k && s.losers_to_close@.len() == 0),
{
    let outs = race_outcomes(completions);
    let j0 = choose|j: int| 0 <= j < completions.len() && completions[j].index == k;
    assert(succeeded(outs[j0]));
    lemma_first_success_index(outs);
    let w = first_success_index(outs);
    assert(completions[w].index == k);
    let rest = completions.skip(w + 1);
    assert forall|j: int| 0 <= j < rest.len() implies !succeeded(rest[j].outcome) by {
        assert(rest[j] == completions[j + w + 1]);
    }
    lemma_connected_indices_none(rest);
}

/// Concurrent-race law, abandoned streams: in a won race, every completion
/// that established a stream and is not the winning one has its candidate
/// listed for closure — no stream escapes unclosed.
pub proof fn lemma_race_losers_closed(
    hostname: String,
    completions: Seq<RaceCompletion>,
    r: Result<RaceSuccess, ConnectError>,
    j: int,
)
    requires
        race_spec(hostname, completions, r),
        r is Ok,
        0 <= j < completions.len(),
        succeeded(completions[j].outcome),
        j != first_success_index(race_outcomes(completions)),
    ensures
        (r matches Ok(s) && s.losers_to_close@.contains(completions[j].index)),
{
    let outs = race_outcomes(completions);
    lemma_first_success_index(outs);
    let w = first_success_index(outs);
    assert(succeeded(outs[j]));
    assert(j > w);
    let rest = completions.skip(w + 1);
    assert(rest[j - w - 1] == completions[j]);
    lemma_connected_indices_contains(rest, j - w - 1);
}

} // verus!
