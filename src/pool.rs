use vstd::prelude::*;
use crate::error::InitError;

verus! {

/// The slowest answer to the health probe, in milliseconds, that still
/// admits a resolver to the pool.
pub const PROBE_LATENCY_LIMIT_MS: u64 = 150;

/// What probing one upstream resolver gave: whether it answered the
/// reference lookup, and how long that took.
pub struct ProbeResult<T> {
    pub label: String,
    pub handle: T,
    pub answered: bool,
    pub elapsed_ms: u64,
}

/// A resolver is kept when it answered within the latency limit.
pub open spec fn passes(answered: bool, elapsed_ms: u64) -> bool {
    answered && elapsed_ms <= PROBE_LATENCY_LIMIT_MS
}

/// The probe results that pass, in the order given.
pub open spec fn passing<T>(results: Seq<ProbeResult<T>>) -> Seq<ProbeResult<T>> {
    results.filter(|p: ProbeResult<T>| passes(p.answered, p.elapsed_ms))
}

/// Whether a probe that answered (or not) after `elapsed_ms` admits its resolver.
pub fn probe_passes(answered: bool, elapsed_ms: u64) -> (r: bool)
    ensures
        r == passes(answered, elapsed_ms),
{
    answered && elapsed_ms <= PROBE_LATENCY_LIMIT_MS
}

/// The resolvers that passed the probe, fixed for the whole scan and handed
/// out round-robin by task index.
pub struct ResolverPool<T> {
    handles: Vec<T>,
}

impl<T> View for ResolverPool<T> {
    type V = Seq<T>;

    closed spec fn view(&self) -> Seq<T> {
        self.handles@
    }
}

impl<T> ResolverPool<T> {
    /// A pool is never empty.
    pub open spec fn wf(&self) -> bool {
        self@.len() > 0
    }

    /// The pool of the given handles, or `NoUsableResolver` when there is none.
    pub fn new(handles: Vec<T>) -> (r: Result<ResolverPool<T>, InitError>)
        ensures
            r is Err <==> handles@.len() == 0,
            r is Err ==> r->Err_0 == InitError::NoUsableResolver,
            r is Ok ==> r->Ok_0@ == handles@ && r->Ok_0.wf(),
    {
        if handles.len() == 0 {
            Err(InitError::NoUsableResolver)
        } else {
            Ok(ResolverPool { handles })
        }
    }

    /// The number of resolvers.
    pub fn size(&self) -> (r: usize)
        ensures
            r == self@.len(),
    {
        self.handles.len()
    }

    /// The position of the resolver that task `index` uses.
    pub fn slot_for(&self, index: usize) -> (r: usize)
        requires
            self.wf(),
        ensures
            r == index as int % self@.len() as int,
            r < self@.len(),
    {
        index % self.handles.len()
    }

    /// The resolver that task `index` uses: `pool[index mod size]`.
    pub fn for_task(&self, index: usize) -> (r: &T)
        requires
            self.wf(),
        ensures
            *r == self@[index as int % self@.len() as int],
    {
        &self.handles[index % self.handles.len()]
    }

    /// The resolver at position `slot`.
    pub fn get(&self, slot: usize) -> (r: &T)
        requires
            slot < self@.len(),
        ensures
            *r == self@[slot as int],
    {
        &self.handles[slot]
    }
}

/// The pool made of the resolvers that passed the probe, in the order given,
/// with their labels; `NoUsableResolver` exactly when none passed.
pub fn select_resolvers<T>(results: Vec<ProbeResult<T>>) -> (r: Result<(ResolverPool<T>, Vec<String>), InitError>)
    ensures
        r is Err <==> passing(results@).len() == 0,
        r is Err ==> r->Err_0 == InitError::NoUsableResolver,
        r is Ok ==> {
            let (pool, labels) = r->Ok_0;
            &&& pool.wf()
            &&& pool@ == passing(results@).map_values(|p: ProbeResult<T>| p.handle)
            &&& labels@ == passing(results@).map_values(|p: ProbeResult<T>| p.label)
        },
{
    let ghost all = results@;
    let n = results.len();
    let mut rest = results;
    let mut handles: Vec<T> = Vec::new();
    let mut labels: Vec<String> = Vec::new();
    let mut i: usize = 0;
    while rest.len() > 0
        invariant
            0 <= i <= all.len(),
            n == all.len(),
            rest@ == all.subrange(i as int, all.len() as int),
            handles@ == passing(all.subrange(0, i as int)).map_values(|p: ProbeResult<T>| p.handle),
            labels@ == passing(all.subrange(0, i as int)).map_values(|p: ProbeResult<T>| p.label),
        decreases rest@.len(),
    {
        let p = rest.remove(0);
        proof {
            let pre = all.subrange(0, i as int + 1);
            assert(pre.drop_last() =~= all.subrange(0, i as int));
            assert(pre.last() == p);
            reveal(Seq::filter);
        }
        if probe_passes(p.answered, p.elapsed_ms) {
            let ghost hb = handles@;
            let ghost lb = labels@;
            handles.push(p.handle);
            labels.push(p.label);
            proof {
                let f = passing(all.subrange(0, i as int + 1));
                assert(f == passing(all.subrange(0, i as int)).push(p));
                assert(handles@ =~= f.map_values(|p: ProbeResult<T>| p.handle));
                assert(labels@ =~= f.map_values(|p: ProbeResult<T>| p.label));
            }
        } else {
            proof {
                assert(passing(all.subrange(0, i as int + 1)) == passing(all.subrange(0, i as int)));
            }
        }
        i = i + 1;
        assert(rest@ =~= all.subrange(i as int, all.len() as int));
    }
    assert(all.subrange(0, i as int) =~= all);
    if handles.len() == 0 {
        Err(InitError::NoUsableResolver)
    } else {
        Ok((ResolverPool { handles }, labels))
    }
}

/// Task `index` and task `index + size` use the same resolver, and the first
/// `size` tasks use each resolver in turn.
pub proof fn lemma_round_robin<T>(pool: ResolverPool<T>, index: int)
    requires
        pool.wf(),
        index >= 0,
    ensures
        (index + pool@.len()) % (pool@.len() as int) == index % (pool@.len() as int),
        index < pool@.len() ==> index % (pool@.len() as int) == index,
{
    let n = pool@.len() as int;
    vstd::arithmetic::div_mod::lemma_mod_add_multiples_vanish(index, n);
    if index < n {
        vstd::arithmetic::div_mod::lemma_small_mod(index as nat, n as nat);
    }
}

} // verus!
