use vstd::prelude::*;

verus! {

/// A network address as returned by an address lookup.
///
/// `V4` holds the four octets in network order as one big-endian integer,
/// `V6` the sixteen octets likewise.
#[derive(Clone, Copy, Debug, PartialEq, Eq, Hash, Structural)]
pub enum IpAddress {
    V4(u32),
    V6(u128),
}

/// The addresses that a wildcard DNS record answers with.
///
/// It is learned once, from a name that cannot legitimately exist, and is
/// only read afterwards.
pub struct WildcardSet {
    addrs: Vec<IpAddress>,
}

impl View for WildcardSet {
    type V = Set<IpAddress>;

    closed spec fn view(&self) -> Set<IpAddress> {
        self.addrs@.to_set()
    }
}

/// Whether any of `addrs` is one of the wildcard addresses.
pub open spec fn hits_wildcard(addrs: Seq<IpAddress>, wildcard: Set<IpAddress>) -> bool {
    exists|i: int| 0 <= i < addrs.len() && #[trigger] wildcard.contains(addrs[i])
}

impl WildcardSet {
    /// The set of a domain without a wildcard record.
    pub fn empty() -> (r: WildcardSet)
        ensures
            r@ == Set::<IpAddress>::empty(),
    {
        let r = WildcardSet { addrs: Vec::new() };
        assert(r@ =~= Set::<IpAddress>::empty());
        r
    }

    /// The set learned from the baseline lookup: its addresses when it
    /// answered, and no address when it failed.
    pub fn from_baseline<E>(lookup: Result<Vec<IpAddress>, E>) -> (r: WildcardSet)
        ensures
            lookup is Ok ==> r@ == lookup->Ok_0@.to_set(),
            lookup is Err ==> r@ == Set::<IpAddress>::empty(),
    {
        match lookup {
            Ok(addrs) => WildcardSet { addrs },
            Err(_) => WildcardSet::empty(),
        }
    }

    /// Whether `a` is a wildcard address.
    pub fn contains(&self, a: &IpAddress) -> (r: bool)
        ensures
            r == self@.contains(*a),
    {
        let mut i: usize = 0;
        while i < self.addrs.len()
            invariant
                0 <= i <= self.addrs@.len(),
                forall|j: int| 0 <= j < i ==> self.addrs@[j] != *a,
            decreases self.addrs@.len() - i,
        {
            if self.addrs[i] == *a {
                assert(self.addrs@.contains(*a));
                return true;
            }
            i = i + 1;
        }
        assert(!self.addrs@.contains(*a));
        false
    }

    /// Whether any of `addrs` is a wildcard address.
    pub fn intersects(&self, addrs: &Vec<IpAddress>) -> (r: bool)
        ensures
            r == hits_wildcard(addrs@, self@),
    {
        let mut i: usize = 0;
        while i < addrs.len()
            invariant
                0 <= i <= addrs@.len(),
                forall|j: int| 0 <= j < i ==> !self@.contains(#[trigger] addrs@[j]),
            decreases addrs@.len() - i,
        {
            if self.contains(&addrs[i]) {
                return true;
            }
            i = i + 1;
        }
        false
    }
}

} // verus!
