use vstd::prelude::*;

verus! {

/// The text of each string.
pub open spec fn texts(v: Seq<String>) -> Seq<Seq<char>> {
    v.map_values(|s: String| s@)
}

/// The label of the baseline name: chosen so that no real host carries it.
pub open spec fn baseline_label() -> Seq<char> {
    "this-is-fake-wildcard-test-999"@
}

/// `<word>.<domain>`.
pub open spec fn dotted(word: Seq<char>, domain: Seq<char>) -> Seq<char> {
    word + seq!['.'] + domain
}

/// The candidate name that a wordlist entry stands for under `domain`.
pub fn candidate_name(word: &str, domain: &str) -> (r: String)
    ensures
        r@ == dotted(word@, domain@),
{
    let mut r = String::from_str(word);
    r.append(".");
    proof {
        reveal_strlit(".");
    }
    r.append(domain);
    r
}

/// The name whose answers reveal a wildcard record of `domain`.
pub fn baseline_name(domain: &str) -> (r: String)
    ensures
        r@ == dotted(baseline_label(), domain@),
{
    candidate_name("this-is-fake-wildcard-test-999", domain)
}

} // verus!
