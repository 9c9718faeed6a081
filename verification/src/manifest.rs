//! Manifest data: the per-manifest global settings and the list of modules.
//! Parsing the manifest file is a collaborator's job; this crate consumes
//! the data it produces.

use vstd::prelude::*;
use crate::location::Location;
use crate::lowercase::LwcString;

verus! {

/// The version field alone, read first to decide whether the manifest
/// format is supported.
#[derive(Debug, Clone)]
pub struct VersionDetect {
    pub version: String,
}

/// Manifest-wide definitions.
#[derive(Debug, Clone)]
pub struct Global {
    /// The language the game runs in.
    pub game_language: String,
    /// Preferred languages, in order.
    pub lang_preferences: Option<Vec<String>>,
    pub patch_path: Option<String>,
    /// Subdirectory of the manifest root holding local module archives.
    pub local_mods: Option<String>,
    /// Subdirectory of the manifest root holding local origin files.
    pub local_files: Option<String>,
}

impl Default for Global {
    /// All settings empty.
    fn default() -> (r: Global)
        ensures
            r.game_language@ == Seq::<char>::empty(),
            r.lang_preferences is None,
            r.patch_path is None,
            r.local_mods is None,
            r.local_files is None,
    {
        Global {
            game_language: String::new(),
            lang_preferences: None,
            patch_path: None,
            local_mods: None,
            local_files: None,
        }
    }
}

/// One installable unit: a name, and where its payload lives when this
/// pipeline can fetch it.
#[derive(Debug, Clone)]
pub struct Module {
    pub name: LwcString,
    pub location: Option<Location>,
}

/// A whole manifest: format version, global settings, modules.
#[derive(Debug, Clone)]
pub struct Manifest {
    /// Manifest format version.
    pub version: String,
    /// Manifest-wide definitions.
    pub global: Global,
    /// List of modules.
    pub modules: Vec<Module>,
}

} // verus!
