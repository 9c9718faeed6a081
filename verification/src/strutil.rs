//! Small verified helpers over `&str` and its `Seq<char>` view.

use vstd::prelude::*;
use vstd::string::*;

verus! {

/// Exact equality of two string slices, decided on their character views.
pub fn str_eq(a: &str, b: &str) -> (r: bool)
    ensures
        r == (a@ == b@),
{
    let sa = String::from_str(a);
    let sb = String::from_str(b);
    sa == sb
}

/// Index of the last occurrence of `c` in `s`, or `-1` if `c` does not occur.
pub open spec fn last_index_of_char(s: Seq<char>, c: char) -> int
    decreases s.len(),
{
    if s.len() == 0 {
        -1
    } else if s[s.len() - 1] == c {
        s.len() - 1
    } else {
        last_index_of_char(s.drop_last(), c)
    }
}

pub proof fn lemma_last_index_of_char(s: Seq<char>, c: char)
    ensures
        -1 <= last_index_of_char(s, c) < s.len(),
        last_index_of_char(s, c) == -1 ==> forall|j: int| 0 <= j < s.len() ==> s[j] != c,
        last_index_of_char(s, c) >= 0 ==> {
            let p = last_index_of_char(s, c);
            &&& p < s.len()
            &&& s[p] == c
            &&& forall|j: int| p < j < s.len() ==> s[j] != c
        },
    decreases s.len(),
{
    if s.len() > 0 && s[s.len() - 1] != c {
        lemma_last_index_of_char(s.drop_last(), c);
        assert forall|j: int| 0 <= j < s.len() - 1 implies s.drop_last()[j] == s[j] by {}
    }
}

pub proof fn lemma_last_index_of_char_at(s: Seq<char>, c: char, p: int)
    requires
        0 <= p < s.len(),
        s[p] == c,
        forall|j: int| p < j < s.len() ==> s[j] != c,
    ensures
        last_index_of_char(s, c) == p,
    decreases s.len(),
{
    if p == s.len() - 1 {
    } else {
        assert(s[s.len() - 1] != c);
        assert(s.drop_last()[p] == c);
        lemma_last_index_of_char_at(s.drop_last(), c, p);
    }
}

/// Finds the last occurrence of `c` in `s`.
pub fn rfind_char(s: &str, c: char) -> (r: Option<usize>)
    ensures
        match r {
            Option::None => last_index_of_char(s@, c) == -1,
            Option::Some(i) => last_index_of_char(s@, c) == i,
        },
{
    let n = s.unicode_len();
    let mut i = n;
    while i > 0
        invariant
            i <= n,
            n == s@.len(),
            forall|j: int| i <= j < s@.len() ==> s@[j] != c,
        decreases i,
    {
        i = i - 1;
        let ch = s.get_char(i);
        if ch == c {
            proof {
                lemma_last_index_of_char_at(s@, c, i as int);
            }
            return Some(i);
        }
    }
    proof {
        lemma_last_index_of_char(s@, c);
    }
    None
}

/// The whitespace characters a blank pattern may hold: the Unicode
/// White_Space set, as `char::is_whitespace` and `str::trim` know it.
pub open spec fn is_space_char(c: char) -> bool {
    ||| c == '\t' || c == '\n' || c == '\u{b}' || c == '\u{c}' || c == '\r' || c == ' '
    ||| c == '\u{85}' || c == '\u{a0}' || c == '\u{1680}'
    ||| c == '\u{2000}' || c == '\u{2001}' || c == '\u{2002}' || c == '\u{2003}'
    ||| c == '\u{2004}' || c == '\u{2005}' || c == '\u{2006}' || c == '\u{2007}'
    ||| c == '\u{2008}' || c == '\u{2009}' || c == '\u{200a}'
    ||| c == '\u{2028}' || c == '\u{2029}' || c == '\u{202f}' || c == '\u{205f}'
    ||| c == '\u{3000}'
}

/// Decides whether a character is Unicode whitespace.
fn is_space(c: char) -> (r: bool)
    ensures
        r == is_space_char(c),
{
    c == '\t' || c == '\n' || c == '\u{b}' || c == '\u{c}' || c == '\r' || c == ' '
        || c == '\u{85}' || c == '\u{a0}' || c == '\u{1680}'
        || c == '\u{2000}' || c == '\u{2001}' || c == '\u{2002}' || c == '\u{2003}'
        || c == '\u{2004}' || c == '\u{2005}' || c == '\u{2006}' || c == '\u{2007}'
        || c == '\u{2008}' || c == '\u{2009}' || c == '\u{200a}'
        || c == '\u{2028}' || c == '\u{2029}' || c == '\u{202f}' || c == '\u{205f}'
        || c == '\u{3000}'
}

/// Whether `s` holds whitespace only (an empty `s` is blank).
pub open spec fn is_blank_spec(s: Seq<char>) -> bool {
    forall|j: int| 0 <= j < s.len() ==> is_space_char(s[j])
}

/// Decides whether a string is made of whitespace alone.
pub fn is_blank(s: &str) -> (r: bool)
    ensures
        r == is_blank_spec(s@),
{
    let n = s.unicode_len();
    let mut i: usize = 0;
    while i < n
        invariant
            i <= n,
            n == s@.len(),
            forall|j: int| 0 <= j < i ==> is_space_char(s@[j]),
        decreases n - i,
    {
        let c = s.get_char(i);
        if !is_space(c) {
            return false;
        }
        i = i + 1;
    }
    true
}

/// Whether `pat` occurs in `s` as a contiguous subsequence.
pub open spec fn contains_sub(s: Seq<char>, pat: Seq<char>) -> bool {
    exists|i: int| 0 <= i && i + pat.len() <= s.len() && #[trigger] s.subrange(i, i + pat.len())
        == pat
}

/// `s` with every non-overlapping occurrence of `pat`, scanned from the
/// left, replaced by `to`.
pub open spec fn replace_spec(s: Seq<char>, pat: Seq<char>, to: Seq<char>) -> Seq<char>
    decreases s.len(),
    when pat.len() > 0
{
    if s.len() < pat.len() {
        s
    } else if s.take(pat.len() as int) == pat {
        to + replace_spec(s.skip(pat.len() as int), pat, to)
    } else {
        seq![s[0]] + replace_spec(s.drop_first(), pat, to)
    }
}

/// Decides whether `pat` occurs in `s`.
///
/// Relies on `str::contains`: it reports whether the pattern occurs as a
/// substring.
#[verifier::external_body]
pub(crate) fn contains_sub_str(s: &str, pat: &str) -> (r: bool)
    ensures
        r == contains_sub(s@, pat@),
{
    s.contains(pat)
}

/// Replaces every occurrence of `pat` in `s` by `to`.
///
/// Relies on `str::replace`: it replaces the non-overlapping matches of the
/// pattern from the left.
#[verifier::external_body]
pub(crate) fn replace_all(s: &str, pat: &str, to: &str) -> (r: String)
    requires
        pat@.len() > 0,
    ensures
        r@ == replace_spec(s@, pat@, to@),
{
    s.replace(pat, to)
}

/// Whether some element of `v` has the text `t`.
pub open spec fn has_text(v: Seq<String>, t: Seq<char>) -> bool {
    exists|j: int| #![trigger v[j]] 0 <= j < v.len() && v[j]@ == t
}

/// Decides whether some element of `v` has the text `s`.
pub fn vec_contains_str(v: &Vec<String>, s: &str) -> (r: bool)
    ensures
        r == has_text(v@, s@),
{
    let mut i: usize = 0;
    while i < v.len()
        invariant
            i <= v@.len(),
            forall|j: int| #![trigger v@[j]] 0 <= j < i ==> v@[j]@ != s@,
        decreases v@.len() - i,
    {
        if str_eq(v[i].as_str(), s) {
            return true;
        }
        i = i + 1;
    }
    false
}

/// Drops duplicate texts, keeping each element's first occurrence.
pub fn dedup_strings(items: Vec<String>) -> (r: Vec<String>)
    ensures
        forall|a: int, b: int| 0 <= a < b < r@.len() ==> r@[a]@ != r@[b]@,
        forall|k: int| #![trigger items@[k]] 0 <= k < items@.len() ==> has_text(r@, items@[k]@),
        forall|j: int| #![trigger r@[j]] 0 <= j < r@.len() ==> has_text(items@, r@[j]@),
{
    let mut out: Vec<String> = Vec::new();
    let mut i: usize = 0;
    while i < items.len()
        invariant
            i <= items@.len(),
            forall|a: int, b: int| 0 <= a < b < out@.len() ==> out@[a]@ != out@[b]@,
            forall|k: int| #![trigger items@[k]] 0 <= k < i ==> has_text(out@, items@[k]@),
            forall|j: int| #![trigger out@[j]] 0 <= j < out@.len() ==> has_text(items@, out@[j]@),
        decreases items@.len() - i,
    {
        let present = vec_contains_str(&out, items[i].as_str());
        let ghost old_out = out@;
        if !present {
            out.push(items[i].clone());
        }
        proof {
            if !present {
                let last = out@.len() - 1;
                assert(out@[last]@ == items@[i as int]@);
                assert forall|t: Seq<char>| has_text(old_out, t) implies has_text(out@, t) by {
                    let j = choose|j: int| #![trigger old_out[j]]
                        0 <= j < old_out.len() && old_out[j]@ == t;
                    assert(out@[j]@ == t);
                }
                assert(has_text(out@, items@[i as int]@));
                assert(has_text(items@, out@[last]@));
            }
        }
        i = i + 1;
    }
    out
}

/// `a` with `b` appended.
pub fn concat2(a: &str, b: &str) -> (r: String)
    ensures
        r@ == a@ + b@,
{
    let s = String::from_str(a);
    s.concat(b)
}


} // verus!
