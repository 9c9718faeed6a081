//! Per-module orchestration: resolving a module's source into a retrieval
//! plan (where the archive is cached or found on disk), and the pure parts
//! of the post-install stages. The download itself, the patch engine and
//! the replace engine are external collaborators.

use vstd::prelude::*;
use vstd::string::*;

use crate::args::Install;
use crate::errors::InstallError;
use crate::extractor::Extractor;
use crate::installer::{manifest_root_of, manifest_root_spec, local_subdir_invalid};
use crate::location::{save_name_spec, save_subdir_spec, ConcreteLocation, ReplaceSpec, Source};
use crate::lowercase::LwcString;
use crate::manifest::{Global, Module};
use crate::pathutil::{
    clean_path, clean_spec, is_absolute_path, is_rooted, join_path, join_spec, starts_with_parent,
};
use crate::settings::Config;

verus! {

/// The archive cache: maps a derived relative subdirectory to a location
/// under its root.
#[derive(Debug, Clone)]
pub enum Cache {
    Path(String),
}

/// Where a relative cache subdirectory lands under the cache root.
pub open spec fn cache_join_spec(cache: &Cache, rel: Seq<char>) -> Seq<char> {
    match cache {
        Cache::Path(root) => join_spec(root@, rel),
    }
}

impl Cache {
    /// Joins a derived subdirectory onto the cache root.
    pub fn join(&self, rel: &str) -> (r: String)
        ensures
            r@ == cache_join_spec(self, rel@),
    {
        match self {
            Cache::Path(root) => join_path(root.as_str(), rel),
        }
    }
}

/// How one module's archive is obtained.
#[derive(Debug, Clone)]
pub enum Retrieval {
    /// The external downloader fetches into `dest_dir` under the name
    /// `save_name`.
    Download { dest_dir: String, save_name: String },
    /// The archive is already on disk.
    File { path: String },
}

/// The cleaned local-mods subdirectory; the empty path when none is
/// configured.
pub open spec fn local_mods_cleaned(global: &Global) -> Seq<char> {
    match global.local_mods {
        Option::Some(ref p) => clean_spec(p@),
        Option::None => Seq::<char>::empty(),
    }
}

/// Drives one module's install: resolves its source, hands retrieval to the
/// external downloader, and extracts the archive.
pub struct ModuleDownload {
    pub global: Global,
    pub opts: Install,
    pub extractor: Extractor,
    pub cache: Cache,
    pub game_dir: String,
}

impl ModuleDownload {
    pub fn new(config: Config, global: Global, opts: Install, game_dir: String, cache: Cache) -> (r:
        ModuleDownload)
        ensures
            r.global == global,
            r.opts == opts,
            r.cache == cache,
            r.game_dir == game_dir,
            r.extractor.game_dir == game_dir,
            r.extractor.config == config,
    {
        let extractor_dir = game_dir.clone();
        ModuleDownload {
            global,
            opts,
            extractor: Extractor::new(extractor_dir, config),
            cache,
            game_dir,
        }
    }

    /// The base directory a valid local mod path resolves to.
    pub open spec fn local_mod_spec(&self, mod_path: Seq<char>) -> Seq<char> {
        join_spec(
            join_spec(
                clean_spec(manifest_root_spec(self.opts.manifest_path@, self.game_dir@)),
                local_mods_cleaned(&self.global),
            ),
            clean_spec(mod_path),
        )
    }

    /// Which local mod paths are rejected: an invalid configured
    /// subdirectory, or a path that cleans to an absolute one.
    pub open spec fn local_mod_invalid(&self, mod_path: Seq<char>) -> bool {
        local_subdir_invalid(local_mods_cleaned(&self.global)) || is_rooted(clean_spec(mod_path))
    }

    /// Resolves a local mod path: cleans the manifest root, the configured
    /// local-mods subdirectory and the mod path independently, rejects an
    /// absolute or parent-climbing subdirectory and an absolute mod path,
    /// and joins the three. The resolution is lexical: it is computed from
    /// the arguments alone and touches no filesystem.
    pub fn get_local_mod_path(&self, local_mod_name: &String) -> (r: Result<String, InstallError>)
        ensures
            ({
                let lm = local_mods_cleaned(&self.global);
                let mp = clean_spec(local_mod_name@);
                match r {
                    Ok(p) => {
                        &&& !local_subdir_invalid(lm)
                        &&& !is_rooted(mp)
                        &&& p@ == self.local_mod_spec(local_mod_name@)
                    },
                    Err(e) => {
                        &&& e matches InstallError::PathSafety { detail }
                        &&& if local_subdir_invalid(lm) {
                            self.global.local_mods matches Some(raw) && detail@ == raw@
                        } else {
                            is_rooted(mp) && detail@ == local_mod_name@
                        }
                    },
                }
            }),
    {
        let root = self.get_manifest_root();
        let root_clean = clean_path(root.as_str());
        let lm_clean = match &self.global.local_mods {
            None => String::new(),
            Some(p) => clean_path(p.as_str()),
        };
        if is_absolute_path(lm_clean.as_str()) || starts_with_parent(lm_clean.as_str()) {
            let detail = match &self.global.local_mods {
                Some(p) => p.clone(),
                None => String::new(),
            };
            return Err(InstallError::PathSafety { detail });
        }
        let mp_clean = clean_path(local_mod_name.as_str());
        if is_absolute_path(mp_clean.as_str()) {
            return Err(InstallError::PathSafety { detail: local_mod_name.clone() });
        }
        Ok(join_path(join_path(root_clean.as_str(), lm_clean.as_str()).as_str(), mp_clean.as_str()))
    }

    /// The manifest file's parent directory, or the game directory when the
    /// manifest path has no parent.
    pub fn get_manifest_root(&self) -> (r: String)
        ensures
            r@ == manifest_root_spec(self.opts.manifest_path@, self.game_dir@),
    {
        manifest_root_of(self.opts.manifest_path.as_str(), self.game_dir.as_str())
    }

    /// Resolves a location into a retrieval plan: http and Github sources
    /// are downloads into the cache subdirectory under the derived save
    /// name; an absolute source is its literal path; a local source is the
    /// safe join of manifest root, configured local-mods subdirectory and
    /// the local path.
    pub fn retrieve_plan(&self, loc: &ConcreteLocation, module: &Module) -> (r: Result<
        Retrieval,
        InstallError,
    >)
        ensures
            ({
                let sub = save_subdir_spec(&loc.source);
                let name = save_name_spec(&loc.source, module.name@);
                match r {
                    Ok(plan) => {
                        &&& sub is Some
                        &&& name is Some
                        &&& match loc.source {
                            Source::Http(_) | Source::Github(_) => plan matches
                                Retrieval::Download { dest_dir, save_name }
                                && dest_dir@ == cache_join_spec(&self.cache, sub.unwrap())
                                && save_name@ == name.unwrap(),
                            Source::Absolute { ref path } => plan matches Retrieval::File {
                                path: p,
                            } && p@ == path@,
                            Source::Local { ref local } => plan matches Retrieval::File { path: p }
                                && !self.local_mod_invalid(local@) && p@ == self.local_mod_spec(
                                local@,
                            ),
                        }
                    },
                    Err(e) => {
                        if sub is None || name is None {
                            e is SourceResolution
                        } else {
                            &&& e is PathSafety
                            &&& loc.source matches Source::Local { ref local }
                                && self.local_mod_invalid(local@)
                        }
                    },
                }
            }),
    {
        let subdir = match loc.source.save_subdir() {
            Err(e) => return Err(e),
            Ok(subdir) => subdir,
        };
        let dest = self.cache.join(subdir.as_str());
        let save_name = match loc.source.save_name(&module.name) {
            Err(e) => return Err(e),
            Ok(save_name) => save_name,
        };
        match &loc.source {
            Source::Http(_) => Ok(Retrieval::Download { dest_dir: dest, save_name }),
            Source::Github(_) => Ok(Retrieval::Download { dest_dir: dest, save_name }),
            Source::Absolute { path } => Ok(Retrieval::File { path: path.clone() }),
            Source::Local { local } => match self.get_local_mod_path(local) {
                Err(e) => Err(e),
                Ok(path) => Ok(Retrieval::File { path }),
            },
        }
    }
}

/// The directory each replace specification of a module runs against: one
/// entry per specification, in list order, each the module's own
/// subdirectory of the game directory. The external replace engine is then
/// run once per entry.
pub fn replace_module(game_dir: &str, module_name: &LwcString, replace: &Option<Vec<ReplaceSpec>>)
    -> (r: Vec<String>)
    ensures
        r@.len() == match replace {
            Option::Some(specs) => specs@.len(),
            Option::None => 0,
        },
        forall|i: int| #![trigger r@[i]]
            0 <= i < r@.len() ==> r@[i]@ == join_spec(game_dir@, module_name@),
{
    let mut targets: Vec<String> = Vec::new();
    match replace {
        None => targets,
        Some(specs) => {
            let mut i: usize = 0;
            while i < specs.len()
                invariant
                    i <= specs@.len(),
                    targets@.len() == i,
                    forall|j: int| #![trigger targets@[j]]
                        0 <= j < i ==> targets@[j]@ == join_spec(game_dir@, module_name@),
                decreases specs@.len() - i,
            {
                targets.push(join_path(game_dir, module_name.as_str()));
                i = i + 1;
            }
            targets
        }
    }
}

} // verus!
