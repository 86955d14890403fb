use vstd::prelude::*;
use crate::names::texts;

verus! {

/// Whether `c` has the Unicode White_Space property.
pub open spec fn is_white_space(c: char) -> bool {
    ('\u{9}' <= c && c <= '\u{d}') || c == ' ' || c == '\u{85}' || c == '\u{a0}'
        || c == '\u{1680}' || ('\u{2000}' <= c && c <= '\u{200a}') || c == '\u{2028}'
        || c == '\u{2029}' || c == '\u{202f}' || c == '\u{205f}' || c == '\u{3000}'
}

/// `s` without its leading white space.
pub open spec fn trim_start(s: Seq<char>) -> Seq<char>
    decreases s.len(),
{
    if s.len() > 0 && is_white_space(s[0]) {
        trim_start(s.drop_first())
    } else {
        s
    }
}

/// `s` without its trailing white space.
pub open spec fn trim_end(s: Seq<char>) -> Seq<char>
    decreases s.len(),
{
    if s.len() > 0 && is_white_space(s.last()) {
        trim_end(s.drop_last())
    } else {
        s
    }
}

/// `s` without its leading and trailing white space.
pub open spec fn trimmed(s: Seq<char>) -> Seq<char> {
    trim_end(trim_start(s))
}

/// Relies on `str::trim`: the line without its leading and trailing
/// characters of the Unicode White_Space property.
#[verifier::external_body]
fn trim_line(s: &str) -> (r: String)
    ensures
        r@ == trimmed(s@),
{
    s.trim().to_string()
}

/// A trimmed line is an entry when it is not empty and is not a comment.
pub open spec fn is_entry(t: Seq<char>) -> bool {
    t.len() > 0 && t[0] != '#'
}

/// The entries of a wordlist, in file order: every trimmed line that is an entry.
pub open spec fn entries_of(lines: Seq<Seq<char>>) -> Seq<Seq<char>>
    decreases lines.len(),
{
    if lines.len() == 0 {
        Seq::empty()
    } else {
        let rest = entries_of(lines.drop_last());
        let t = trimmed(lines.last());
        if is_entry(t) {
            rest.push(t)
        } else {
            rest
        }
    }
}

/// Whether an already trimmed line is an entry.
pub fn keeps_line(t: &str) -> (r: bool)
    ensures
        r == is_entry(t@),
{
    t.unicode_len() > 0 && t.get_char(0) != '#'
}

/// The entries of a wordlist given as its lines: each line trimmed, blank
/// lines and lines that start with `#` left out, the order and duplicates
/// kept. A wordlist without entries gives an empty list.
pub fn wordlist_load(lines: &Vec<String>) -> (r: Vec<String>)
    ensures
        texts(r@) == entries_of(texts(lines@)),
{
    let mut out: Vec<String> = Vec::new();
    let mut i: usize = 0;
    while i < lines.len()
        invariant
            0 <= i <= lines@.len(),
            texts(out@) == entries_of(texts(lines@).subrange(0, i as int)),
        decreases lines@.len() - i,
    {
        let t = trim_line(lines[i].as_str());
        proof {
            let pre = texts(lines@).subrange(0, i as int + 1);
            assert(pre.drop_last() =~= texts(lines@).subrange(0, i as int));
            assert(pre.last() == lines@[i as int]@);
        }
        if keeps_line(t.as_str()) {
            let ghost before = out@;
            out.push(t);
            proof {
                assert(texts(out@) =~= texts(before).push(t@));
            }
        }
        i = i + 1;
    }
    assert(texts(lines@).subrange(0, lines@.len() as int) =~= texts(lines@));
    out
}

/// A wordlist has entries exactly when one of its lines, once trimmed, is
/// neither blank nor a comment.
pub proof fn lemma_entries_nonempty(lines: Seq<Seq<char>>)
    ensures
        entries_of(lines).len() > 0 <==> exists|i: int|
            0 <= i < lines.len() && is_entry(#[trigger] trimmed(lines[i])),
    decreases lines.len(),
{
    if lines.len() > 0 {
        let init = lines.drop_last();
        lemma_entries_nonempty(init);
        if exists|i: int| 0 <= i < lines.len() && is_entry(#[trigger] trimmed(lines[i])) {
            let i = choose|i: int| 0 <= i < lines.len() && is_entry(#[trigger] trimmed(lines[i]));
            if i < lines.len() - 1 {
                assert(trimmed(init[i]) == trimmed(lines[i]));
            }
        }
        if exists|i: int| 0 <= i < init.len() && is_entry(#[trigger] trimmed(init[i])) {
            let i = choose|i: int| 0 <= i < init.len() && is_entry(#[trigger] trimmed(init[i]));
            assert(trimmed(lines[i]) == trimmed(init[i]));
        }
    }
}

} // verus!
