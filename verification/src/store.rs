//! The cache that carries delta records from the sampler to a reader: an
//! append-only log the sampler writes, claimed whole and atomically by a
//! reader, after which the sampler starts a fresh one.

use vstd::prelude::*;
use vstd::string::StringExecFns;

verus! {

/// The abstract state of the cache: whether a log is present, and the
/// text appended to it so far.
pub struct StoreState {
    /// Whether the log exists (a sampler has appended since the last claim).
    pub present: bool,
    /// Everything appended since the log appeared, in append order.
    pub live: Seq<char>,
}

/// What appending one write unit does: the log exists afterwards and the
/// unit sits at its end.
pub open spec fn appended(s: StoreState, unit: Seq<char>) -> StoreState {
    StoreState { present: true, live: s.live + unit }
}

/// What a claim leaves behind: no log, nothing retained.
pub open spec fn claimed(s: StoreState) -> StoreState {
    if s.present {
        StoreState { present: false, live: Seq::<char>::empty() }
    } else {
        s
    }
}

/// What a reader gets out of the cache: the whole log, or nothing when no
/// sampler has produced data since the last claim.
#[derive(Debug, PartialEq, Eq)]
pub enum Fetched {
    /// The complete log as it stood at the instant of the claim.
    Data(String),
    /// No log was present; nothing is created and nothing is returned.
    NoData,
}

/// The cache store. Exec code sees an owned value; process exclusivity
/// (one appender, one claimer) is what the lock side guarantees.
pub struct CacheStore {
    present: bool,
    live: String,
}

impl View for CacheStore {
    type V = StoreState;

    closed spec fn view(&self) -> StoreState {
        StoreState { present: self.present, live: self.live@ }
    }
}

impl CacheStore {
    /// A cache no sampler has written to yet.
    pub fn new() -> (s: CacheStore)
        ensures
            !s@.present,
            s@.live == Seq::<char>::empty(),
    {
        CacheStore { present: false, live: String::new() }
    }

    /// Append one write unit: all of a tick's lines land at the end of the
    /// log as one piece, creating the log if none is present.
    pub fn append(&mut self, unit: &str)
        ensures
            final(self)@ == appended(old(self)@, unit@),
    {
        self.present = true;
        self.live.append(unit);
    }

    /// The handoff: claim the whole log atomically, leaving no log behind,
    /// or report that there is none. A claim never creates a log and never
    /// observes a partial write unit.
    pub fn fetch(&mut self) -> (r: Fetched)
        ensures
            final(self)@ == claimed(old(self)@),
            old(self)@.present ==> (r matches Fetched::Data(d) && d@ == old(self)@.live),
            !old(self)@.present ==> r is NoData,
    {
        if self.present {
            let d = self.live.clone();
            self.live = String::new();
            self.present = false;
            Fetched::Data(d)
        } else {
            Fetched::NoData
        }
    }
}

/// The state after a whole run of appends, in order.
pub open spec fn appended_all(s: StoreState, units: Seq<Seq<char>>) -> StoreState
    decreases units.len(),
{
    if units.len() == 0 {
        s
    } else {
        appended_all(appended(s, units[0]), units.drop_first())
    }
}

/// The concatenation of a run of write units, in order.
pub open spec fn concat_all(units: Seq<Seq<char>>) -> Seq<char>
    decreases units.len(),
{
    if units.len() == 0 {
        Seq::<char>::empty()
    } else {
        units[0] + concat_all(units.drop_first())
    }
}

/// Round trip of the handoff: after any run of appends, the log holds
/// every unit exactly once, in append order, after whatever stood there
/// before; and once claimed, nothing of it is present for a later claim.
pub proof fn lemma_round_trip(s: StoreState, units: Seq<Seq<char>>)
    ensures
        appended_all(s, units).live == s.live + concat_all(units),
        units.len() > 0 ==> appended_all(s, units).present,
        !claimed(appended_all(s, units)).present,
    decreases units.len(),
{
    if units.len() == 0 {
        assert(s.live + concat_all(units) =~= s.live);
    } else {
        let s1 = appended(s, units[0]);
        lemma_round_trip(s1, units.drop_first());
        assert(s1.live + concat_all(units.drop_first()) =~= s.live + concat_all(units));
    }
}

/// A claim on an empty or missing cache yields `NoData` and leaves the
/// cache exactly as it was: in particular it creates no log.
pub proof fn lemma_fetch_missing(s: StoreState)
    requires
        !s.present,
    ensures
        claimed(s) == s,
{
}

/// Two claims with no append in between: the second finds no log, whatever
/// the first found.
pub proof fn lemma_fetch_twice(s: StoreState)
    ensures
        !claimed(s).present,
        claimed(claimed(s)) == claimed(s),
{
}

} // verus!
