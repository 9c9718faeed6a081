//! Non-archive file origins: payloads that already sit on disk.

use vstd::prelude::*;

verus! {

/// Where a file module's payload sits: an absolute path, or a path relative
/// to the manifest root's local-files subdirectory. The optional glob
/// restricts which files under the origin are taken.
#[derive(Debug)]
pub enum FileModuleOrigin {
    Absolute { absolute: String, glob: Option<String> },
    Local { local: String, glob: Option<String> },
}

impl Clone for FileModuleOrigin {
    /// The clone carries the same variant and texts.
    fn clone(&self) -> (r: Self)
        ensures
            r == *self,
    {
        match self {
            FileModuleOrigin::Absolute { absolute, glob } => FileModuleOrigin::Absolute {
                absolute: absolute.clone(),
                glob: match glob {
                    Some(g) => Some(g.clone()),
                    None => None,
                },
            },
            FileModuleOrigin::Local { local, glob } => FileModuleOrigin::Local {
                local: local.clone(),
                glob: match glob {
                    Some(g) => Some(g.clone()),
                    None => None,
                },
            },
        }
    }
}

impl FileModuleOrigin {
    /// The origin's glob restriction, when one is set.
    pub fn glob(&self) -> (r: Option<&String>)
        ensures
            match r {
                Option::Some(g) => self.glob_spec() == Option::Some(g@),
                Option::None => self.glob_spec() is None,
            },
    {
        match self {
            FileModuleOrigin::Absolute { glob, .. } => glob.as_ref(),
            FileModuleOrigin::Local { glob, .. } => glob.as_ref(),
        }
    }

    /// The glob restriction's text.
    pub open spec fn glob_spec(&self) -> Option<Seq<char>> {
        match self {
            FileModuleOrigin::Absolute { glob, .. } => match glob {
                Option::Some(g) => Option::Some(g@),
                Option::None => Option::None,
            },
            FileModuleOrigin::Local { glob, .. } => match glob {
                Option::Some(g) => Option::Some(g@),
                Option::None => Option::None,
            },
        }
    }
}

} // verus!
