//! Candidate addresses and the static fallback table.

use vstd::prelude::*;

verus! {

/// One concrete address eligible for dialing toward an authority, together
/// with an optional override of the Server Name Indication value sent during
/// the TLS handshake to it.
///
/// A candidate produced by resolution carries no override; one drawn from the
/// fallback table may carry an explicit override, so that the wire-level SNI
/// can differ from both the dialed address and the authority's hostname.
#[derive(Debug, PartialEq, Eq)]
pub struct Candidate {
    /// Literal IP address, as text, to dial.
    pub address: String,
    /// Explicit SNI value for this candidate, if any.
    pub sni_override: Option<String>,
}

impl Candidate {
    /// A candidate as resolution produces it: an address with no override.
    pub fn resolved(address: String) -> (r: Candidate)
        ensures
            r.address == address,
            r.sni_override is None,
    {
        Candidate { address, sni_override: None }
    }

    /// A fallback-table candidate with an explicit SNI override.
    pub fn with_sni(address: String, sni: String) -> (r: Candidate)
        ensures
            r.address == address,
            r.sni_override == Some(sni),
    {
        Candidate { address, sni_override: Some(sni) }
    }
}

impl Clone for Candidate {
    fn clone(&self) -> (r: Self)
        ensures
            r == *self,
    {
        let sni_override = match &self.sni_override {
            Some(s) => Some(s.clone()),
            None => None,
        };
        Candidate { address: self.address.clone(), sni_override }
    }
}

/// Clones a candidate list element by element.
pub fn clone_candidates(v: &Vec<Candidate>) -> (r: Vec<Candidate>)
    ensures
        r@ == v@,
{
    let mut r: Vec<Candidate> = Vec::new();
    let mut i: usize = 0;
    while i < v.len()
        invariant
            i <= v.len(),
            r@ == v@.subrange(0, i as int),
        decreases v.len() - i,
    {
        r.push(v[i].clone());
        assert(r@ =~= v@.subrange(0, i + 1 as int));
        i = i + 1;
    }
    assert(r@ =~= v@);
    r
}

/// One row of the fallback table: the candidates to dial for one hostname.
pub struct FallbackEntry {
    pub hostname: String,
    pub candidates: Vec<Candidate>,
}

/// What the table answers for `host` when its rows are `entries`: the
/// candidate list of the first row whose hostname matches, if any.
spec fn lookup_entries(entries: Seq<FallbackEntry>, host: Seq<char>) -> Option<Seq<Candidate>>
    decreases entries.len(),
{
    if entries.len() == 0 {
        None
    } else if entries[0].hostname@ == host {
        Some(entries[0].candidates@)
    } else {
        lookup_entries(entries.drop_first(), host)
    }
}

proof fn lemma_lookup_entries_skip(entries: Seq<FallbackEntry>, host: Seq<char>, i: int)
    requires
        0 <= i <= entries.len(),
        forall|j: int| 0 <= j < i ==> entries[j].hostname@ != host,
    ensures
        lookup_entries(entries, host) == lookup_entries(entries.skip(i), host),
    decreases i,
{
    if i == 0 {
        assert(entries.skip(0) =~= entries);
    } else {
        let rest = entries.drop_first();
        assert(forall|j: int| 0 <= j < i - 1 ==> rest[j].hostname@ != host);
        lemma_lookup_entries_skip(rest, host, i - 1);
        assert(rest.skip(i - 1) =~= entries.skip(i));
    }
}

/// Static mapping from hostname to the ordered candidates to dial when normal
/// resolution for that hostname is unreliable. Loaded once at connector
/// construction; read-only afterwards, so connection attempts may share it
/// freely.
pub struct FallbackTable {
    entries: Vec<FallbackEntry>,
}

impl FallbackTable {
    /// The candidates the table holds for `host`, if it holds any.
    pub closed spec fn spec_lookup(self, host: Seq<char>) -> Option<Seq<Candidate>> {
        lookup_entries(self.entries@, host)
    }

    /// A table with no entry for any hostname.
    pub fn new() -> (r: FallbackTable)
        ensures
            forall|h: Seq<char>| r.spec_lookup(h) is None,
    {
        FallbackTable { entries: Vec::new() }
    }

    /// Binds `hostname` to `candidates`, replacing what the table held for it;
    /// every other hostname keeps its answer.
    pub fn insert(&mut self, hostname: String, candidates: Vec<Candidate>)
        ensures
            final(self).spec_lookup(hostname@) == Some(candidates@),
            forall|h: Seq<char>|
                h != hostname@ ==> final(self).spec_lookup(h) == old(self).spec_lookup(h),
    {
        let ghost old_entries = self.entries@;
        let entry = FallbackEntry { hostname, candidates };
        self.entries.insert(0, entry);
        proof {
            assert(self.entries@.drop_first() =~= old_entries);
        }
    }

    /// Looks the hostname up; `None` means no fallback is available for it.
    pub fn lookup(&self, hostname: &String) -> (r: Option<&Vec<Candidate>>)
        ensures
            match r {
                Some(v) => self.spec_lookup(hostname@) == Some(v@),
                None => self.spec_lookup(hostname@) is None,
            },
    {
        let mut i: usize = 0;
        while i < self.entries.len()
            invariant
                i <= self.entries.len(),
                forall|j: int| 0 <= j < i ==> self.entries@[j].hostname@ != hostname@,
            decreases self.entries.len() - i,
        {
            if self.entries[i].hostname == *hostname {
                proof {
                    lemma_lookup_entries_skip(self.entries@, hostname@, i as int);
                    assert(self.entries@.skip(i as int)[0] == self.entries@[i as int]);
                }
                return Some(&self.entries[i].candidates);
            }
            i = i + 1;
        }
        proof {
            lemma_lookup_entries_skip(self.entries@, hostname@, i as int);
        }
        None
    }
}

} // verus!
