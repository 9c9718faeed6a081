//! The crate's path model: paths are plain strings with `/` as separator.
//!
//! All reasoning about paths is lexical. A path is *rooted* when it starts
//! with `/`; its components are the non-empty, non-`.` slash-separated
//! pieces. Cleaning removes `.` components and resolves `..` against a
//! preceding normal component, exactly as the Plan 9 `cleanname` rules do.

use vstd::prelude::*;
use vstd::string::*;
use crate::strutil::{last_index_of_char, lemma_last_index_of_char, rfind_char, str_eq};

verus! {

/// Whether the path starts at the filesystem root.
pub open spec fn is_rooted(s: Seq<char>) -> bool {
    s.len() > 0 && s[0] == '/'
}

/// Splits `s` on `sep`; the result always has at least one (possibly empty)
/// piece, as `str::split` does.
pub open spec fn split_on(s: Seq<char>, sep: char) -> Seq<Seq<char>>
    decreases s.len(),
{
    if s.len() == 0 {
        seq![Seq::<char>::empty()]
    } else if s[0] == sep {
        seq![Seq::<char>::empty()] + split_on(s.drop_first(), sep)
    } else {
        let rest = split_on(s.drop_first(), sep);
        seq![seq![s[0]] + rest[0]] + rest.drop_first()
    }
}

/// Whether a slash-separated piece counts as a path component: it is
/// neither empty nor `.`.
pub open spec fn is_component(e: Seq<char>) -> bool {
    e.len() > 0 && e != "."@
}

/// The pieces that count as components, in order.
pub open spec fn components_of(pieces: Seq<Seq<char>>) -> Seq<Seq<char>>
    decreases pieces.len(),
{
    if pieces.len() == 0 {
        Seq::<Seq<char>>::empty()
    } else if is_component(pieces[0]) {
        seq![pieces[0]] + components_of(pieces.drop_first())
    } else {
        components_of(pieces.drop_first())
    }
}

/// The path components of `s`: slash-separated pieces that are neither empty
/// nor `.`.
pub open spec fn path_components(s: Seq<char>) -> Seq<Seq<char>> {
    components_of(split_on(s, '/'))
}

/// Splitting a text that holds no separator yields the text alone.
pub proof fn lemma_split_on_no_sep(s: Seq<char>, sep: char)
    requires
        forall|j: int| 0 <= j < s.len() ==> s[j] != sep,
    ensures
        split_on(s, sep) =~~= seq![s],
    decreases s.len(),
{
    if s.len() == 0 {
        assert(s =~= Seq::<char>::empty());
    } else {
        lemma_split_on_no_sep(s.drop_first(), sep);
        let rest = split_on(s.drop_first(), sep);
        assert(rest == seq![s.drop_first()]);
        assert(seq![s[0]] + s.drop_first() =~= s);
        assert(rest.drop_first() =~~= Seq::<Seq<char>>::empty());
    }
}

/// Splitting a text with exactly one separator, at `i`, yields the piece
/// before it and the piece after it.
pub proof fn lemma_split_on_single_sep(s: Seq<char>, sep: char, i: int)
    requires
        0 <= i < s.len(),
        s[i] == sep,
        forall|j: int| 0 <= j < s.len() && j != i ==> s[j] != sep,
    ensures
        split_on(s, sep) =~~= seq![s.take(i), s.skip(i + 1)],
    decreases s.len(),
{
    if i == 0 {
        assert(forall|j: int| 0 <= j < s.drop_first().len() ==> s.drop_first()[j] != sep);
        lemma_split_on_no_sep(s.drop_first(), sep);
        assert(split_on(s.drop_first(), sep) == seq![s.drop_first()]);
        assert(s.take(0) =~= Seq::<char>::empty());
        assert(s.skip(1) =~= s.drop_first());
    } else {
        assert(s[0] != sep);
        assert(s.drop_first()[i - 1] == sep);
        assert(forall|j: int|
            0 <= j < s.drop_first().len() && j != i - 1 ==> s.drop_first()[j] != sep);
        lemma_split_on_single_sep(s.drop_first(), sep, i - 1);
        let rest = split_on(s.drop_first(), sep);
        assert(rest == seq![s.drop_first().take(i - 1), s.drop_first().skip(i)]);
        assert(seq![s[0]] + s.drop_first().take(i - 1) =~= s.take(i));
        assert(s.drop_first().skip(i) =~= s.skip(i + 1));
        assert(rest.drop_first() =~~= seq![s.skip(i + 1)]);
    }
}

/// One cleaning step folded over the components from the left: `..` cancels a
/// preceding normal component, is dropped at the root, and is kept when it
/// starts a non-rooted path or follows another kept `..`.
pub open spec fn clean_fold(cs: Seq<Seq<char>>, rooted: bool, out: Seq<Seq<char>>) -> Seq<Seq<char>>
    decreases cs.len(),
{
    if cs.len() == 0 {
        out
    } else {
        let e = cs[0];
        let out2 = if e == ".."@ {
            if out.len() == 0 {
                if rooted {
                    out
                } else {
                    out.push(e)
                }
            } else if out.last() == ".."@ {
                out.push(e)
            } else {
                out.drop_last()
            }
        } else {
            out.push(e)
        };
        clean_fold(cs.drop_first(), rooted, out2)
    }
}

/// Components joined with `/` between them.
pub open spec fn join_components(cs: Seq<Seq<char>>) -> Seq<char>
    decreases cs.len(),
{
    if cs.len() == 0 {
        Seq::<char>::empty()
    } else if cs.len() == 1 {
        cs[0]
    } else {
        cs[0] + seq!['/'] + join_components(cs.drop_first())
    }
}

/// The lexically cleaned form of `s`: single separators, no `.` components,
/// `..` resolved against preceding components and dropped at the root; the
/// empty outcome is `.` (or `/` for a rooted path).
pub open spec fn clean_spec(s: Seq<char>) -> Seq<char> {
    let rooted = is_rooted(s);
    let out = clean_fold(path_components(s), rooted, Seq::empty());
    if rooted {
        seq!['/'] + join_components(out)
    } else if out.len() == 0 {
        "."@
    } else {
        join_components(out)
    }
}

/// Lexically cleans a path.
///
/// Relies on `path_clean::clean` (the Plan 9 `cleanname` rules, applied to
/// `/`-separated paths): its five documented reduction rules are exactly
/// `clean_spec`.
#[verifier::external_body]
pub(crate) fn clean_path(s: &str) -> (r: String)
    ensures
        r@ == clean_spec(s@),
{
    path_clean::clean(s).to_string_lossy().into_owned()
}

/// Decides whether a path is absolute (rooted).
pub fn is_absolute_path(s: &str) -> (r: bool)
    ensures
        r == is_rooted(s@),
{
    if s.unicode_len() == 0 {
        false
    } else {
        s.get_char(0) == '/'
    }
}

/// Whether the first component of a cleaned path is `..`.
pub open spec fn starts_with_parent_spec(s: Seq<char>) -> bool {
    s.len() >= 2 && s[0] == '.' && s[1] == '.' && (s.len() == 2 || s[2] == '/')
}

/// Decides whether a cleaned path begins with a `..` component.
pub fn starts_with_parent(s: &str) -> (r: bool)
    ensures
        r == starts_with_parent_spec(s@),
{
    let n = s.unicode_len();
    if n < 2 {
        false
    } else if !(s.get_char(0) == '.' && s.get_char(1) == '.') {
        false
    } else if n == 2 {
        true
    } else {
        s.get_char(2) == '/'
    }
}

/// Lexical join: empty sides are absorbed, otherwise a single `/` separates.
pub open spec fn join_spec(a: Seq<char>, b: Seq<char>) -> Seq<char> {
    if a.len() == 0 {
        b
    } else if b.len() == 0 {
        a
    } else {
        a + seq!['/'] + b
    }
}

/// Joins two paths with a single separator; an empty side is absorbed.
pub fn join_path(a: &str, b: &str) -> (r: String)
    ensures
        r@ == join_spec(a@, b@),
{
    if a.unicode_len() == 0 {
        String::from_str(b)
    } else if b.unicode_len() == 0 {
        String::from_str(a)
    } else {
        let mut s = String::from_str(a);
        s.append("/");
        s.append(b);
        proof {
            reveal_strlit("/");
            assert(s@ =~= a@ + seq!['/'] + b@);
        }
        s
    }
}

/// `s` with trailing separators removed.
pub open spec fn strip_trailing_slashes(s: Seq<char>) -> Seq<char>
    decreases s.len(),
{
    if s.len() > 0 && s[s.len() - 1] == '/' {
        strip_trailing_slashes(s.drop_last())
    } else {
        s
    }
}

/// The parent of a path: the path without its last component, `None` for the
/// root and for the empty path.
pub open spec fn parent_spec(s: Seq<char>) -> Option<Seq<char>> {
    let t = strip_trailing_slashes(s);
    if t.len() == 0 {
        Option::None
    } else {
        let p = last_index_of_char(t, '/');
        if p == -1 {
            Option::Some(Seq::<char>::empty())
        } else {
            let q = strip_trailing_slashes(t.take(p));
            if q.len() == 0 {
                Option::Some(seq!['/'])
            } else {
                Option::Some(q)
            }
        }
    }
}

/// Removes trailing separators.
fn strip_trailing(s: &str) -> (r: String)
    ensures
        r@ == strip_trailing_slashes(s@),
{
    let n = s.unicode_len();
    let mut i = n;
    proof {
        assert(s@.take(n as int) =~= s@);
    }
    loop
        invariant_except_break
            i <= n,
            n == s@.len(),
            strip_trailing_slashes(s@) == strip_trailing_slashes(s@.take(i as int)),
        ensures
            i <= n,
            n == s@.len(),
            strip_trailing_slashes(s@) == strip_trailing_slashes(s@.take(i as int)),
            i > 0 ==> s@[i - 1] != '/',
        decreases i,
    {
        if i == 0 {
            break;
        }
        let c = s.get_char(i - 1);
        if c != '/' {
            break;
        }
        proof {
            assert(s@.take(i as int).drop_last() =~= s@.take(i - 1));
        }
        i = i - 1;
    }
    let r = s.substring_char(0, i);
    proof {
        assert(r@ =~= s@.take(i as int));
    }
    String::from_str(r)
}

/// The parent directory of a path, when it has one.
pub fn parent_path(s: &str) -> (r: Option<String>)
    ensures
        match r {
            Option::None => parent_spec(s@) is None,
            Option::Some(p) => parent_spec(s@) == Option::Some(p@),
        },
{
    let t = strip_trailing(s);
    let tn = t.as_str().unicode_len();
    if tn == 0 {
        return None;
    }
    match rfind_char(t.as_str(), '/') {
        None => Some(String::new()),
        Some(p) => {
            proof {
                lemma_last_index_of_char(t@, '/');
            }
            let prefix = t.as_str().substring_char(0, p);
            proof {
                assert(prefix@ =~= t@.take(p as int));
            }
            let q = strip_trailing(prefix);
            if q.as_str().unicode_len() == 0 {
                let root = String::from_str("/");
                proof {
                    reveal_strlit("/");
                    assert(root@ =~= seq!['/']);
                }
                Some(root)
            } else {
                Some(q)
            }
        }
    }
}

/// What holds of every path a bounded directory walk under `base` yields:
/// the path extends `base` verbatim, and the walked remainder has a
/// component count within the requested depth window (the walked tree adds
/// one component per directory level).
pub open spec fn depth_bounded(
    base: Seq<char>,
    p: Seq<char>,
    min_depth: Option<usize>,
    max_depth: Option<usize>,
) -> bool {
    &&& p.len() >= base.len()
    &&& p.take(base.len() as int) == base
    &&& (match min_depth {
        Option::Some(m) => path_components(p.skip(base.len() as int)).len() >= m,
        Option::None => true,
    })
    &&& (match max_depth {
        Option::Some(m) => path_components(p.skip(base.len() as int)).len() <= m,
        Option::None => true,
    })
}

/// The file name of a path: everything after the last separator.
pub open spec fn file_name_spec(s: Seq<char>) -> Seq<char> {
    let p = last_index_of_char(s, '/');
    s.skip(p + 1)
}

/// Returns the file-name part of a path.
pub fn file_name(s: &str) -> (r: String)
    ensures
        r@ == file_name_spec(s@),
{
    let n = s.unicode_len();
    match rfind_char(s, '/') {
        None => {
            proof {
                assert(s@.skip(0) =~= s@);
            }
            String::from_str(s)
        }
        Some(p) => {
            proof {
                lemma_last_index_of_char(s@, '/');
            }
            let r = s.substring_char(p + 1, n);
            proof {
                assert(r@ =~= s@.skip(p + 1));
            }
            String::from_str(r)
        }
    }
}

/// The extension of a file name: what follows the last `.`, unless that dot
/// is absent or leads the name.
pub open spec fn extension_of_name(name: Seq<char>) -> Option<Seq<char>> {
    let d = last_index_of_char(name, '.');
    if d <= 0 {
        Option::None
    } else {
        Option::Some(name.skip(d + 1))
    }
}

/// The stem of a file name: what precedes the extension.
pub open spec fn stem_of_name(name: Seq<char>) -> Seq<char> {
    let d = last_index_of_char(name, '.');
    if d <= 0 {
        name
    } else {
        name.take(d)
    }
}

/// The extension of the path's file name.
pub open spec fn extension_spec(s: Seq<char>) -> Option<Seq<char>> {
    extension_of_name(file_name_spec(s))
}

/// Splits a file name into stem and extension.
pub fn split_extension(name: &str) -> (r: (String, Option<String>))
    ensures
        r.0@ == stem_of_name(name@),
        match r.1 {
            Option::None => extension_of_name(name@) is None,
            Option::Some(e) => extension_of_name(name@) == Option::Some(e@),
        },
{
    let n = name.unicode_len();
    match rfind_char(name, '.') {
        None => (String::from_str(name), None),
        Some(d) => {
            if d == 0 {
                (String::from_str(name), None)
            } else {
                proof {
                    lemma_last_index_of_char(name@, '.');
                }
                let stem = name.substring_char(0, d);
                let ext = name.substring_char(d + 1, n);
                proof {
                    assert(stem@ =~= name@.take(d as int));
                    assert(ext@ =~= name@.skip(d + 1));
                }
                (String::from_str(stem), Some(String::from_str(ext)))
            }
        }
    }
}

} // verus!
