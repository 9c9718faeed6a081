//! Options of one install run, as the command-line front end hands them
//! over.

use vstd::prelude::*;

verus! {

/// Options of an install run. The manifest path anchors every
/// manifest-relative resolution.
#[derive(Debug, Clone)]
pub struct Install {
    pub manifest_path: String,
}

impl Default for Install {
    /// An empty manifest path.
    fn default() -> (r: Install)
        ensures
            r.manifest_path@ == Seq::<char>::empty(),
    {
        Install { manifest_path: String::new() }
    }
}

} // verus!
