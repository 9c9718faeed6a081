//! Configuration the install pipeline consumes: the archive cache and
//! extraction workspace locations, and the external extractor tools keyed
//! by archive extension.

use vstd::prelude::*;
use crate::lowercase::LwcString;

verus! {

/// An external extractor invocation template. Each argument may hold the
/// placeholders `${input}` (the archive path) and `${target}` (the
/// extraction directory).
#[derive(Debug)]
pub struct ExtractorCommand {
    pub command: String,
    pub args: Vec<String>,
}

/// The configuration surface this crate reads.
#[derive(Debug)]
pub struct Config {
    /// Where downloaded archives are cached.
    pub archive_cache: Option<String>,
    /// Workspace root for archive extraction; the system default when
    /// absent.
    pub extract_location: Option<String>,
    /// External extractor tools, keyed by lowercased archive extension.
    pub extractors: Vec<(LwcString, ExtractorCommand)>,
}

impl Default for Config {
    /// No cache location, no extraction root, no external extractors.
    fn default() -> (r: Config)
        ensures
            r.archive_cache is None,
            r.extract_location is None,
            r.extractors@.len() == 0,
    {
        Config { archive_cache: None, extract_location: None, extractors: Vec::new() }
    }
}

/// The first extractor entry whose key is the given lowercased extension.
pub open spec fn find_extractor(
    entries: Seq<(LwcString, ExtractorCommand)>,
    key: Seq<char>,
) -> Option<ExtractorCommand>
    decreases entries.len(),
{
    if entries.len() == 0 {
        Option::None
    } else if entries[0].0@ == key {
        Option::Some(entries[0].1)
    } else {
        find_extractor(entries.drop_first(), key)
    }
}

impl Config {
    /// Looks up the external extractor configured for a lowercased
    /// extension key.
    pub fn extractor_for(&self, key: &LwcString) -> (r: Option<&ExtractorCommand>)
        ensures
            match r {
                Option::Some(cmd) => find_extractor(self.extractors@, key@) == Option::Some(*cmd),
                Option::None => find_extractor(self.extractors@, key@) is None,
            },
    {
        let mut i: usize = 0;
        proof {
            assert(self.extractors@.skip(0) =~= self.extractors@);
        }
        while i < self.extractors.len()
            invariant
                i <= self.extractors@.len(),
                forall|j: int| #![trigger self.extractors@[j]]
                    0 <= j < i ==> self.extractors@[j].0@ != key@,
                find_extractor(self.extractors@, key@) == find_extractor(
                    self.extractors@.skip(i as int),
                    key@,
                ),
            decreases self.extractors@.len() - i,
        {
            proof {
                assert(self.extractors@.skip(i as int).drop_first() =~= self.extractors@.skip(
                    i + 1,
                ));
            }
            if self.extractors[i].0.same(key) {
                return Some(&self.extractors[i].1);
            }
            i = i + 1;
        }
        None
    }
}

} // verus!
