use vstd::prelude::*;
use crate::address::IpAddress;
use crate::classify::{reported, wildcard_verdict, LookupFailure, LookupOutcome};
use crate::names::{candidate_name, dotted, texts};
use crate::pool::ResolverPool;

verus! {

/// The state of a scan as the contracts see it.
pub ghost struct ScanModel {
    pub domain: Seq<char>,
    pub words: Seq<Seq<char>>,
    pub window: nat,
    pub launched: nat,
    pub completed: nat,
    pub found: bool,
}

impl ScanModel {
    /// Tasks are launched in wordlist order and completed at most once each,
    /// and never more than `window` are in flight.
    pub open spec fn wf(self) -> bool {
        &&& self.window > 0
        &&& self.completed <= self.launched <= self.words.len()
        &&& self.launched - self.completed <= self.window
    }

    /// Whether one more task may be launched now.
    pub open spec fn can_launch(self) -> bool {
        self.launched < self.words.len() && self.launched - self.completed < self.window
    }

    /// The lookups that were launched and have not yet given their outcome.
    pub open spec fn in_flight(self) -> int {
        self.launched - self.completed
    }

    /// Every candidate has given its outcome.
    pub open spec fn done(self) -> bool {
        self.completed == self.words.len()
    }
}

/// One lookup to run: the candidate at position `index` of the wordlist,
/// its name, and the position of its resolver in the pool.
pub struct Task {
    pub index: usize,
    pub name: String,
    pub slot: usize,
}

/// The bookkeeping of a scan with a bounded number of lookups in flight.
///
/// The caller runs the lookups; outcomes may come back in any order.
pub struct Scan {
    domain: String,
    words: Vec<String>,
    window: usize,
    launched: usize,
    completed: usize,
    found: bool,
}

impl View for Scan {
    type V = ScanModel;

    closed spec fn view(&self) -> ScanModel {
        ScanModel {
            domain: self.domain@,
            words: texts(self.words@),
            window: self.window as nat,
            launched: self.launched as nat,
            completed: self.completed as nat,
            found: self.found,
        }
    }
}

impl Scan {
    /// A scan of `words` under `domain` with at most `window` lookups in flight.
    pub fn new(domain: String, words: Vec<String>, window: usize) -> (r: Scan)
        requires
            window > 0,
        ensures
            r@.wf(),
            r@.domain == domain@,
            r@.words == texts(words@),
            r@.window == window,
            r@.launched == 0,
            r@.completed == 0,
            !r@.found,
    {
        Scan { domain, words, window, launched: 0, completed: 0, found: false }
    }

    /// The number of candidates, which is also the number of outcomes the
    /// scan waits for.
    pub fn total(&self) -> (r: usize)
        ensures
            r == self@.words.len(),
    {
        self.words.len()
    }

    /// The number of outcomes recorded so far.
    pub fn progress(&self) -> (r: usize)
        ensures
            r == self@.completed,
    {
        self.completed
    }

    /// The number of lookups launched whose outcome has not come back.
    pub fn in_flight(&self) -> (r: usize)
        requires
            self@.wf(),
        ensures
            r == self@.in_flight(),
    {
        self.launched - self.completed
    }

    /// Whether a finding has been recorded.
    pub fn found_any(&self) -> (r: bool)
        ensures
            r == self@.found,
    {
        self.found
    }

    /// Whether every candidate has given its outcome.
    pub fn is_done(&self) -> (r: bool)
        ensures
            r == self@.done(),
    {
        self.completed == self.words.len()
    }

    /// The next lookup to launch, if the window has room and candidates are
    /// left: the next candidate in wordlist order, bound to resolver
    /// `index mod size` of `pool`.
    pub fn next_task<T>(&mut self, pool: &ResolverPool<T>) -> (r: Option<Task>)
        requires
            old(self)@.wf(),
            pool.wf(),
        ensures
            final(self)@.wf(),
            r is Some <==> old(self)@.can_launch(),
            r is Some ==> ({
                let t = r->Some_0;
                &&& t.index == old(self)@.launched
                &&& t.name@ == dotted(old(self)@.words[t.index as int], old(self)@.domain)
                &&& t.slot == t.index as int % pool@.len() as int
                &&& final(self)@ == (ScanModel { launched: old(self)@.launched + 1, ..old(self)@ })
            }),
            r is None ==> final(self)@ == old(self)@,
    {
        if self.launched < self.words.len() && self.launched - self.completed < self.window {
            let index = self.launched;
            let name = candidate_name(self.words[index].as_str(), self.domain.as_str());
            let slot = pool.slot_for(index);
            self.launched = self.launched + 1;
            Some(Task { index, name, slot })
        } else {
            None
        }
    }

    /// Records the outcome of a launched lookup; returns whether it is a
    /// finding. Each outcome counts once towards completion, found or not.
    pub fn record(&mut self, outcome: &LookupOutcome) -> (r: bool)
        requires
            old(self)@.wf(),
            old(self)@.in_flight() > 0,
        ensures
            final(self)@.wf(),
            r == reported(outcome.addresses, outcome.is_wildcard),
            final(self)@ == (ScanModel {
                completed: old(self)@.completed + 1,
                found: old(self)@.found || r,
                ..old(self)@
            }),
    {
        let r = outcome.is_reportable();
        self.completed = self.completed + 1;
        self.found = self.found || r;
        r
    }
}

/// A scan never stalls and ends with one outcome per candidate, whatever its
/// window: until it is done, a task can be launched or an outcome is awaited;
/// once done, every candidate was launched and none is in flight.
pub proof fn lemma_scan_completes(m: ScanModel)
    requires
        m.wf(),
    ensures
        !m.done() ==> m.can_launch() || m.in_flight() > 0,
        m.done() ==> m.launched == m.words.len() && m.in_flight() == 0,
        m.completed <= m.words.len(),
{
}

/// A candidate whose address lookup failed leaves no finding, and the scan
/// goes on: recording its outcome counts it towards completion and leaves
/// the found flag as it was, and the scan is done exactly when that was the
/// last candidate to give its outcome. Failures never keep a scan from
/// ending with one outcome per candidate.
pub proof fn lemma_failed_lookup_completes(
    m: ScanModel,
    addresses: Result<Vec<IpAddress>, LookupFailure>,
    wildcard: Set<IpAddress>,
)
    requires
        m.wf(),
        m.in_flight() > 0,
        addresses is Err,
    ensures
        !reported(addresses, wildcard_verdict(addresses, wildcard)),
        ({
            let r = reported(addresses, wildcard_verdict(addresses, wildcard));
            let next = ScanModel { completed: m.completed + 1, found: m.found || r, ..m };
            &&& next.wf()
            &&& next.found == m.found
            &&& next.completed == m.completed + 1
            &&& next.done() <==> m.completed + 1 == m.words.len()
            &&& !next.done() ==> next.can_launch() || next.in_flight() > 0
        }),
{
}

} // verus!
