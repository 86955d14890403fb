use vstd::prelude::*;
use crate::address::{hits_wildcard, IpAddress, WildcardSet};
use crate::cdn::{any_fronted, CdnSignatures};
use crate::names::texts;

verus! {

/// Why a lookup gave no answer.
#[derive(Clone, Copy, Debug, PartialEq, Eq, Structural)]
pub enum LookupFailure {
    /// The name does not exist, or has no record of the asked type.
    NoRecords,
    /// No answer came within the query timeout.
    TimedOut,
    /// A network error or a malformed response.
    Other,
}

/// Whether an address lookup answered with a wildcard address.
pub open spec fn wildcard_verdict(addresses: Result<Vec<IpAddress>, LookupFailure>, wildcard: Set<IpAddress>) -> bool {
    match addresses {
        Ok(v) => hits_wildcard(v@, wildcard),
        Err(_) => false,
    }
}

/// Whether a candidate counts as CDN-fronted: only a candidate that is not a
/// wildcard hit, and whose canonical-name lookup answered with a name that
/// contains a signature.
pub open spec fn cdn_verdict(is_wildcard: bool, canonical: Result<Vec<String>, LookupFailure>, sigs: Seq<Seq<char>>) -> bool {
    !is_wildcard && match canonical {
        Ok(v) => any_fronted(texts(v@), sigs),
        Err(_) => false,
    }
}

/// Whether an outcome is a finding: its address lookup answered and it is
/// not a wildcard hit.
pub open spec fn reported(addresses: Result<Vec<IpAddress>, LookupFailure>, is_wildcard: bool) -> bool {
    !is_wildcard && addresses is Ok
}

/// A candidate after its address lookup, before the canonical-name lookup.
pub struct AddressStage {
    pub name: String,
    pub addresses: Result<Vec<IpAddress>, LookupFailure>,
    pub is_wildcard: bool,
}

/// The classification of one candidate.
pub struct LookupOutcome {
    pub name: String,
    pub addresses: Result<Vec<IpAddress>, LookupFailure>,
    pub is_wildcard: bool,
    pub is_cdn: bool,
}

/// A candidate that exists and is not explained by a wildcard record.
pub struct Finding {
    pub name: String,
    pub addresses: Vec<IpAddress>,
    pub is_cdn: bool,
}

/// Takes the answer of the address lookup of `name` and decides whether it
/// is a wildcard hit.
pub fn address_stage(name: String, addresses: Result<Vec<IpAddress>, LookupFailure>, wildcard: &WildcardSet) -> (r: AddressStage)
    ensures
        r.name == name,
        r.addresses == addresses,
        r.is_wildcard == wildcard_verdict(addresses, wildcard@),
{
    let is_wildcard = match &addresses {
        Ok(v) => wildcard.intersects(v),
        Err(_) => false,
    };
    AddressStage { name, addresses, is_wildcard }
}

impl AddressStage {
    /// Whether the canonical-name lookup is to be made: a wildcard hit will
    /// be suppressed, so its CDN status is not asked for.
    pub fn needs_canonical_lookup(&self) -> (r: bool)
        ensures
            r == !self.is_wildcard,
    {
        !self.is_wildcard
    }

    /// Completes the classification with the answer of the canonical-name
    /// lookup; for a wildcard hit that answer is not looked at.
    pub fn finish(self, canonical: Result<Vec<String>, LookupFailure>, cdn: &CdnSignatures) -> (r: LookupOutcome)
        ensures
            r.name == self.name,
            r.addresses == self.addresses,
            r.is_wildcard == self.is_wildcard,
            r.is_cdn == cdn_verdict(self.is_wildcard, canonical, cdn@),
    {
        let is_cdn = if self.is_wildcard {
            false
        } else {
            match &canonical {
                Ok(names) => cdn.fronts_any(names),
                Err(_) => false,
            }
        };
        LookupOutcome {
            name: self.name,
            addresses: self.addresses,
            is_wildcard: self.is_wildcard,
            is_cdn,
        }
    }
}

/// The classification of `name` from the answers of both of its lookups.
pub fn classify(
    name: String,
    addresses: Result<Vec<IpAddress>, LookupFailure>,
    canonical: Result<Vec<String>, LookupFailure>,
    wildcard: &WildcardSet,
    cdn: &CdnSignatures,
) -> (r: LookupOutcome)
    ensures
        r.name == name,
        r.addresses == addresses,
        r.is_wildcard == wildcard_verdict(addresses, wildcard@),
        r.is_cdn == cdn_verdict(r.is_wildcard, canonical, cdn@),
{
    let stage = address_stage(name, addresses, wildcard);
    stage.finish(canonical, cdn)
}

impl LookupOutcome {
    /// Whether this outcome is reported as a finding.
    pub fn is_reportable(&self) -> (r: bool)
        ensures
            r == reported(self.addresses, self.is_wildcard),
    {
        !self.is_wildcard && self.addresses.is_ok()
    }

    /// The finding this outcome reports, if it reports one.
    pub fn into_finding(self) -> (r: Option<Finding>)
        ensures
            r is Some <==> reported(self.addresses, self.is_wildcard),
            r is Some ==> ({
                let f = r->Some_0;
                &&& f.name == self.name
                &&& Ok::<Vec<IpAddress>, LookupFailure>(f.addresses) == self.addresses
                &&& f.is_cdn == self.is_cdn
            }),
    {
        if self.is_wildcard {
            None
        } else {
            match self.addresses {
                Ok(addresses) => Some(Finding { name: self.name, addresses, is_cdn: self.is_cdn }),
                Err(_) => None,
            }
        }
    }
}

/// A candidate whose addresses meet the wildcard set is never reported, and
/// is never marked as CDN-fronted, whatever its canonical names are.
pub proof fn lemma_wildcard_hit_suppressed(
    addresses: Result<Vec<IpAddress>, LookupFailure>,
    wildcard: Set<IpAddress>,
    canonical: Result<Vec<String>, LookupFailure>,
    sigs: Seq<Seq<char>>,
)
    requires
        addresses is Ok,
        hits_wildcard(addresses->Ok_0@, wildcard),
    ensures
        wildcard_verdict(addresses, wildcard),
        !reported(addresses, wildcard_verdict(addresses, wildcard)),
        !cdn_verdict(wildcard_verdict(addresses, wildcard), canonical, sigs),
{
}

/// A candidate whose address lookup failed is never reported.
pub proof fn lemma_failed_lookup_not_reported(
    addresses: Result<Vec<IpAddress>, LookupFailure>,
    wildcard: Set<IpAddress>,
)
    requires
        addresses is Err,
    ensures
        !reported(addresses, wildcard_verdict(addresses, wildcard)),
{
}

} // verus!
