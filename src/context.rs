use vstd::prelude::*;
use crate::address::{IpAddress, WildcardSet};
use crate::cdn::{builtin_signatures, CdnSignatures};
use crate::classify::LookupFailure;
use crate::error::InitError;
use crate::names::{baseline_label, baseline_name, dotted, texts};
use crate::pool::{passing, select_resolvers, ProbeResult, ResolverPool};
use crate::scan::Scan;
use crate::wordlist::{entries_of, wordlist_load};

verus! {

/// Everything a scan needs, gathered before it starts.
pub struct AppContext<T> {
    pub domain: String,
    pub wordlist: Vec<String>,
    pub threads: usize,
    pub resolvers: ResolverPool<T>,
    pub cdn_cnames: CdnSignatures,
}

impl<T> AppContext<T> {
    /// A context has at least one entry and at least one resolver.
    pub open spec fn wf(&self) -> bool {
        &&& self.wordlist@.len() > 0
        &&& self.resolvers.wf()
    }

    /// Builds the context from the target domain, the wordlist's lines, the
    /// concurrency limit and the probe results of the upstream resolvers.
    ///
    /// A wordlist without entries is refused first; then a probe in which no
    /// resolver passed. On success the context holds the entries in order,
    /// the passing resolvers in order and the built-in CDN signatures, and
    /// the labels of the passing resolvers come along.
    pub fn build(domain: String, lines: &Vec<String>, threads: usize, probes: Vec<ProbeResult<T>>) -> (r: Result<(AppContext<T>, Vec<String>), InitError>)
        ensures
            entries_of(texts(lines@)).len() == 0 ==> r == Err::<(AppContext<T>, Vec<String>), InitError>(InitError::EmptyWordlist),
            entries_of(texts(lines@)).len() > 0 && passing(probes@).len() == 0 ==> r == Err::<(AppContext<T>, Vec<String>), InitError>(InitError::NoUsableResolver),
            r is Ok <==> entries_of(texts(lines@)).len() > 0 && passing(probes@).len() > 0,
            r is Ok ==> ({
                let (ctx, labels) = r->Ok_0;
                &&& ctx.wf()
                &&& ctx.domain == domain
                &&& texts(ctx.wordlist@) == entries_of(texts(lines@))
                &&& ctx.threads == threads
                &&& ctx.resolvers@ == passing(probes@).map_values(|p: ProbeResult<T>| p.handle)
                &&& labels@ == passing(probes@).map_values(|p: ProbeResult<T>| p.label)
                &&& ctx.cdn_cnames@ == builtin_signatures()
            }),
    {
        let cdn_cnames = CdnSignatures::builtin();
        let wordlist = wordlist_load(lines);
        if wordlist.len() == 0 {
            return Err(InitError::EmptyWordlist);
        }
        let (resolvers, labels) = match select_resolvers(probes) {
            Ok(p) => p,
            Err(e) => {
                return Err(e);
            },
        };
        Ok((AppContext { domain, wordlist, threads, resolvers, cdn_cnames }, labels))
    }

    /// The name whose answers reveal a wildcard record, and the position of
    /// the resolver that asks for it.
    pub fn baseline_query(&self) -> (r: (String, usize))
        requires
            self.resolvers.wf(),
        ensures
            r.0@ == dotted(baseline_label(), self.domain@),
            r.1 == 0,
            r.1 < self.resolvers@.len(),
    {
        (baseline_name(self.domain.as_str()), 0)
    }

    /// The wildcard set learned from the answer to the baseline query: its
    /// addresses, or none when the lookup failed.
    pub fn detect_wildcard(&self, baseline: Result<Vec<IpAddress>, LookupFailure>) -> (r: WildcardSet)
        ensures
            baseline is Ok ==> r@ == baseline->Ok_0@.to_set(),
            baseline is Err ==> r@ == Set::<IpAddress>::empty(),
    {
        WildcardSet::from_baseline(baseline)
    }

    /// Hands the context over to a scan of its wordlist, keeping the pool and
    /// the signatures that the lookups use.
    pub fn into_scan(self) -> (r: (Scan, ResolverPool<T>, CdnSignatures))
        requires
            self.threads > 0,
        ensures
            r.0@.wf(),
            r.0@.domain == self.domain@,
            r.0@.words == texts(self.wordlist@),
            r.0@.window == self.threads,
            r.0@.launched == 0 && r.0@.completed == 0 && !r.0@.found,
            r.1@ == self.resolvers@,
            r.2@ == self.cdn_cnames@,
    {
        (Scan::new(self.domain, self.wordlist, self.threads), self.resolvers, self.cdn_cnames)
    }
}

} // verus!
