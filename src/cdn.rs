use vstd::prelude::*;
use crate::names::texts;

verus! {

/// Whether `needle` occurs in `hay` as a run of consecutive characters.
pub open spec fn occurs_in(needle: Seq<char>, hay: Seq<char>) -> bool {
    exists|k: int| 0 <= k <= hay.len() - needle.len() && #[trigger] hay.subrange(k, k + needle.len()) == needle
}

/// Whether the canonical name `name` contains one of the signatures.
pub open spec fn fronted_by(name: Seq<char>, sigs: Seq<Seq<char>>) -> bool {
    exists|j: int| 0 <= j < sigs.len() && occurs_in(#[trigger] sigs[j], name)
}

/// Whether any of the canonical names `names` contains one of the signatures.
pub open spec fn any_fronted(names: Seq<Seq<char>>, sigs: Seq<Seq<char>>) -> bool {
    exists|i: int| 0 <= i < names.len() && fronted_by(#[trigger] names[i], sigs)
}

/// The signatures that mark a host as fronted by a known CDN provider.
pub open spec fn builtin_signatures() -> Seq<Seq<char>> {
    seq![
        "cloudflare.net"@, "cloudflare.com"@,
        "cloudfront.net"@,
        "kunlunpi.com"@, "kunlunca.com"@, "aliyuncs.com"@,
        "tencent-cloud.net"@, "qcloud.com"@, "cdntip.com"@,
        "akamai.net"@, "akamaihd.net"@, "edgesuite.net"@,
        "fastly.net"@,
        "cdn20.com"@, "w.cdngslb.com"@,
        "bdydns.com"@, "jiasule.com"@,
    ]
}

/// Whether `needle` stands in `hay` at character position `k`.
fn occurs_at(needle: &str, hay: &str, k: usize) -> (r: bool)
    requires
        k + needle@.len() <= hay@.len(),
        hay@.len() <= usize::MAX,
    ensures
        r == (hay@.subrange(k as int, k + needle@.len()) == needle@),
{
    let n = needle.unicode_len();
    let mut j: usize = 0;
    while j < n
        invariant
            n == needle@.len(),
            k + n <= hay@.len(),
            hay@.len() <= usize::MAX,
            0 <= j <= n,
            forall|jj: int| 0 <= jj < j ==> hay@[k + jj] == needle@[jj],
        decreases n - j,
    {
        if hay.get_char(k + j) != needle.get_char(j) {
            assert(hay@.subrange(k as int, k + n)[j as int] != needle@[j as int]);
            return false;
        }
        j = j + 1;
    }
    assert(hay@.subrange(k as int, k + n) =~= needle@);
    true
}

/// Whether `needle` occurs anywhere in `hay` (an empty needle always does).
pub fn occurs(needle: &str, hay: &str) -> (r: bool)
    ensures
        r == occurs_in(needle@, hay@),
{
    let n = needle.unicode_len();
    let h = hay.unicode_len();
    if n == 0 {
        assert(hay@.subrange(0, 0) =~= needle@);
        assert(hay@.subrange(0int, 0int + needle@.len()) == needle@);
        return true;
    }
    if n > h {
        return false;
    }
    let mut k: usize = 0;
    while k <= h - n
        invariant
            n == needle@.len(),
            h == hay@.len(),
            0 < n <= h,
            0 <= k <= h - n + 1,
            forall|kk: int| 0 <= kk < k ==> #[trigger] hay@.subrange(kk, kk + n) != needle@,
        decreases h - n + 1 - k,
    {
        if occurs_at(needle, hay, k) {
            return true;
        }
        k = k + 1;
    }
    false
}

/// A fixed list of substrings; a canonical name that contains one of them
/// is taken to be served through a CDN.
pub struct CdnSignatures {
    sigs: Vec<String>,
}

impl View for CdnSignatures {
    type V = Seq<Seq<char>>;

    closed spec fn view(&self) -> Seq<Seq<char>> {
        texts(self.sigs@)
    }
}

impl CdnSignatures {
    /// A list made of the given substrings, in order.
    pub fn new(sigs: Vec<String>) -> (r: CdnSignatures)
        ensures
            r@ == texts(sigs@),
    {
        CdnSignatures { sigs }
    }

    /// The providers known to this library.
    pub fn builtin() -> (r: CdnSignatures)
        ensures
            r@ == builtin_signatures(),
    {
        let sigs = vec![
            String::from_str("cloudflare.net"), String::from_str("cloudflare.com"),
            String::from_str("cloudfront.net"),
            String::from_str("kunlunpi.com"), String::from_str("kunlunca.com"),
            String::from_str("aliyuncs.com"),
            String::from_str("tencent-cloud.net"), String::from_str("qcloud.com"),
            String::from_str("cdntip.com"),
            String::from_str("akamai.net"), String::from_str("akamaihd.net"),
            String::from_str("edgesuite.net"),
            String::from_str("fastly.net"),
            String::from_str("cdn20.com"), String::from_str("w.cdngslb.com"),
            String::from_str("bdydns.com"), String::from_str("jiasule.com"),
        ];
        let r = CdnSignatures { sigs };
        assert(r@ =~= builtin_signatures());
        r
    }

    /// Whether the canonical name `name` contains one of the signatures.
    pub fn fronts(&self, name: &str) -> (r: bool)
        ensures
            r == fronted_by(name@, self@),
    {
        let mut j: usize = 0;
        while j < self.sigs.len()
            invariant
                0 <= j <= self.sigs@.len(),
                forall|jj: int| 0 <= jj < j ==> !occurs_in(#[trigger] self@[jj], name@),
            decreases self.sigs@.len() - j,
        {
            if occurs(self.sigs[j].as_str(), name) {
                assert(occurs_in(self@[j as int], name@));
                return true;
            }
            j = j + 1;
        }
        false
    }

    /// Whether any of the canonical names `names` contains one of the signatures.
    pub fn fronts_any(&self, names: &Vec<String>) -> (r: bool)
        ensures
            r == any_fronted(texts(names@), self@),
    {
        let mut i: usize = 0;
        while i < names.len()
            invariant
                0 <= i <= names@.len(),
                forall|ii: int| 0 <= ii < i ==> !fronted_by(#[trigger] texts(names@)[ii], self@),
            decreases names@.len() - i,
        {
            if self.fronts(names[i].as_str()) {
                assert(fronted_by(texts(names@)[i as int], self@));
                return true;
            }
            i = i + 1;
        }
        false
    }
}

} // verus!
