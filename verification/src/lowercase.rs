//! Case-insensitive identifiers: module names and archive-extension keys are
//! carried in their lowercased form.

use vstd::prelude::*;
use vstd::string::*;

verus! {

/// The lowercased form of a sequence of characters, as `str::to_lowercase`
/// computes it. The result depends on the characters alone.
pub uninterp spec fn lower_of(s: Seq<char>) -> Seq<char>;

/// Lowercases a string.
///
/// Relies on `str::to_lowercase`: the result is a function of the input
/// characters alone.
#[verifier::external_body]
fn to_lowercase(s: &str) -> (r: String)
    ensures
        r@ == lower_of(s@),
{
    s.to_lowercase()
}

/// A string held in lowercased form. Module names and extractor keys use
/// this type so that their comparisons ignore case.
#[derive(Debug)]
pub struct LwcString {
    lower: String,
}

impl Clone for LwcString {
    /// The clone carries the same text.
    fn clone(&self) -> (r: Self)
        ensures
            r@ == self@,
    {
        LwcString { lower: self.lower.clone() }
    }
}

impl View for LwcString {
    type V = Seq<char>;

    closed spec fn view(&self) -> Seq<char> {
        self.lower@
    }
}

impl LwcString {
    /// Builds the lowercased form of `s`.
    pub fn new(s: &str) -> (r: LwcString)
        ensures
            r@ == lower_of(s@),
    {
        LwcString { lower: to_lowercase(s) }
    }

    /// The lowercased text.
    pub fn as_str(&self) -> (r: &str)
        ensures
            r@ == self@,
    {
        self.lower.as_str()
    }

    /// Equality on the lowercased text.
    pub fn same(&self, other: &LwcString) -> (r: bool)
        ensures
            r == (self@ == other@),
    {
        self.lower == other.lower
    }
}

} // verus!
