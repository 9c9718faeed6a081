//! Direct file installation: copies files from already-resolved origins
//! into a destination tree, with glob selection, an overwrite policy, and
//! path-safety validation against the manifest root.

use vstd::prelude::*;
use vstd::string::*;

use crate::args::Install;
use crate::errors::InstallError;
use crate::fsops::{canonicalize_path, copy_items_to, create_dirs, glob_walk};
use crate::manifest::Global;
use crate::origins::FileModuleOrigin;
use crate::pathutil::{
    clean_fold, clean_path, clean_spec, components_of, is_absolute_path, is_component, is_rooted,
    join_components, join_path, join_spec, lemma_split_on_single_sep, parent_path, parent_spec,
    path_components, split_on, starts_with_parent, starts_with_parent_spec,
};

verus! {

/// The directory every manifest-relative path resolves against: the
/// manifest file's parent directory, or the game directory when the
/// manifest path has no parent.
pub open spec fn manifest_root_spec(manifest_path: Seq<char>, game_dir: Seq<char>) -> Seq<char> {
    match parent_spec(manifest_path) {
        Option::None => game_dir,
        Option::Some(p) => p,
    }
}

/// Computes the manifest root directory.
pub fn manifest_root_of(manifest_path: &str, game_dir: &str) -> (r: String)
    ensures
        r@ == manifest_root_spec(manifest_path@, game_dir@),
{
    match parent_path(manifest_path) {
        None => String::from_str(game_dir),
        Some(p) => p,
    }
}

/// A configured subdirectory is rejected when, cleaned, it is absolute or
/// climbs out of the manifest tree.
pub open spec fn local_subdir_invalid(cleaned: Seq<char>) -> bool {
    is_rooted(cleaned) || starts_with_parent_spec(cleaned)
}

/// The cleaned local-files subdirectory; the empty path when none is
/// configured.
pub open spec fn local_files_cleaned(global: &Global) -> Seq<char> {
    match global.local_files {
        Option::Some(ref p) => clean_spec(p@),
        Option::None => Seq::<char>::empty(),
    }
}

/// A resolved base directory with an optional glob restriction, built per
/// origin before copying.
#[derive(Debug, Clone)]
pub struct CopyGlob {
    pub base: String,
    pub glob: Option<String>,
}

/// Checks that a path names a usable absolute origin base once
/// canonicalized: it must be absolute and must not be the filesystem root.
pub fn validate_absolute_base(p: String) -> (r: Result<String, InstallError>)
    ensures
        match r {
            Ok(q) => q@ == p@ && is_rooted(p@) && parent_spec(p@) is Some,
            Err(e) => {
                &&& e matches InstallError::PathSafety { detail } && detail@ == p@
                &&& !is_rooted(p@) || parent_spec(p@) is None
            },
        },
{
    if !is_absolute_path(p.as_str()) {
        return Err(InstallError::PathSafety { detail: p });
    }
    match parent_path(p.as_str()) {
        None => Err(InstallError::PathSafety { detail: p }),
        Some(_) => Ok(p),
    }
}

/// Resolves an absolute origin base: canonicalizes the path, then requires
/// the result to be absolute and to have a parent (the filesystem root is
/// not allowed as a base). A path that cannot be canonicalized (typically:
/// it does not exist) is rejected the same way.
pub fn check_absolute(path: &str) -> (r: Result<String, InstallError>)
    ensures
        match r {
            Ok(p) => is_rooted(p@) && parent_spec(p@) is Some,
            Err(e) => e is PathSafety,
        },
{
    match canonicalize_path(path) {
        None => Err(InstallError::PathSafety { detail: String::from_str(path) }),
        Some(p) => validate_absolute_base(p),
    }
}

/// A configured local-files subdirectory of `../escape` survives cleaning
/// with its leading parent component, so an installer configured with it
/// rejects every local origin, before any filesystem access.
pub proof fn lemma_escape_subdir_rejected(installer: FileInstaller)
    requires
        installer.global.local_files matches Some(p) && p@ == "../escape"@,
    ensures
        local_subdir_invalid(local_files_cleaned(&installer.global)),
{
    reveal_strlit("../escape");
    reveal_strlit("..");
    reveal_strlit(".");
    let s = "../escape"@;
    assert(s.len() == 9);
    assert(s[0] == '.' && s[1] == '.' && s[2] == '/');
    assert(s[3] == 'e' && s[4] == 's' && s[5] == 'c' && s[6] == 'a' && s[7] == 'p' && s[8] == 'e');
    assert(forall|j: int| 0 <= j < 9 && j != 2 ==> s[j] != '/');
    lemma_split_on_single_sep(s, '/', 2);
    let a = s.take(2);
    let b = s.skip(3);
    assert(a =~= ".."@);
    assert(a == ".."@);
    assert(b.len() == 6 && b[0] == 'e');
    assert(split_on(s, '/') == seq![a, b]);
    assert(is_component(a));
    assert(is_component(b));
    let pieces = seq![a, b];
    assert(pieces.drop_first() =~~= seq![b]);
    assert(seq![b].drop_first() =~~= Seq::<Seq<char>>::empty());
    assert(components_of(Seq::<Seq<char>>::empty())
        =~~= Seq::<Seq<char>>::empty());
    assert(components_of(seq![b]) =~~= seq![b]);
    assert(components_of(pieces) =~~= seq![a, b]);
    assert(path_components(s) == seq![a, b]);
    assert(!is_rooted(s));
    assert(b != ".."@);
    let empty_out = Seq::<Seq<char>>::empty();
    assert(clean_fold(Seq::<Seq<char>>::empty(), false, seq![a, b])
        =~~= seq![a, b]);
    assert(seq![a].push(b) =~~= seq![a, b]);
    assert(clean_fold(seq![b], false, seq![a]) =~~= seq![a, b]);
    assert(empty_out.push(a) =~~= seq![a]);
    assert(clean_fold(seq![a, b], false, empty_out) =~~= seq![a, b]);
    assert(join_components(seq![b]) == b);
    assert(seq![a, b].drop_first() =~~= seq![b]);
    assert(join_components(seq![a, b]) =~= a + seq!['/'] + b);
    let cs = clean_spec(s);
    assert(cs =~= a + seq!['/'] + b);
    assert(cs.len() == 9);
    assert(cs[0] == '.' && cs[1] == '.' && cs[2] == '/');
    assert(starts_with_parent_spec(cs));
}

/// Installs files from non-archive origins into a destination directory.
pub struct FileInstaller {
    pub global: Global,
    pub opts: Install,
    pub game_dir: String,
}

impl FileInstaller {
    /// Which origins this installer rejects outright: a local origin whose
    /// configured subdirectory is invalid, or whose own path, cleaned, is
    /// absolute.
    pub open spec fn origin_invalid(&self, origin: &FileModuleOrigin) -> bool {
        match origin {
            FileModuleOrigin::Local { local, .. } => local_subdir_invalid(
                local_files_cleaned(&self.global),
            ) || is_rooted(clean_spec(local@)),
            FileModuleOrigin::Absolute { .. } => false,
        }
    }

    /// The base directory a valid local origin resolves to.
    pub open spec fn local_base_spec(&self, file_path: Seq<char>) -> Seq<char> {
        join_spec(
            join_spec(
                clean_spec(manifest_root_spec(self.opts.manifest_path@, self.game_dir@)),
                local_files_cleaned(&self.global),
            ),
            clean_spec(file_path),
        )
    }

    /// What a resolved base must satisfy for its origin: a local base is the
    /// safe join of manifest root, configured subdirectory and origin path;
    /// an absolute base is absolute and not the filesystem root.
    pub open spec fn origin_base_ok(&self, origin: &FileModuleOrigin, base: Seq<char>) -> bool {
        match origin {
            FileModuleOrigin::Local { local, .. } => base == self.local_base_spec(local@),
            FileModuleOrigin::Absolute { .. } => is_rooted(base) && parent_spec(base) is Some,
        }
    }

    pub fn new(global: Global, opts: Install, game_dir: String) -> (r: FileInstaller)
        ensures
            r.global == global,
            r.opts == opts,
            r.game_dir == game_dir,
    {
        FileInstaller { global, opts, game_dir }
    }

    /// The manifest file's parent directory, or the game directory when the
    /// manifest path has no parent.
    pub fn get_manifest_root(&self) -> (r: String)
        ensures
            r@ == manifest_root_spec(self.opts.manifest_path@, self.game_dir@),
    {
        manifest_root_of(self.opts.manifest_path.as_str(), self.game_dir.as_str())
    }

    /// Resolves a local origin path: cleans the manifest root, the
    /// configured subdirectory and the origin path independently, rejects an
    /// absolute or parent-climbing subdirectory and an absolute origin path,
    /// and joins the three. The resolution is lexical: it is computed from
    /// the arguments alone and touches no filesystem, so a rejection comes
    /// before any filesystem access.
    pub fn get_local_base_path(&self, file_path: &String) -> (r: Result<String, InstallError>)
        ensures
            ({
                let lf = local_files_cleaned(&self.global);
                let fp = clean_spec(file_path@);
                match r {
                    Ok(p) => {
                        &&& !local_subdir_invalid(lf)
                        &&& !is_rooted(fp)
                        &&& p@ == self.local_base_spec(file_path@)
                    },
                    Err(e) => {
                        &&& e matches InstallError::PathSafety { detail }
                        &&& if local_subdir_invalid(lf) {
                            self.global.local_files matches Some(raw) && detail@ == raw@
                        } else {
                            is_rooted(fp) && detail@ == file_path@
                        }
                    },
                }
            }),
    {
        let root = self.get_manifest_root();
        let root_clean = clean_path(root.as_str());
        let lf_clean = match &self.global.local_files {
            None => String::new(),
            Some(p) => clean_path(p.as_str()),
        };
        if is_absolute_path(lf_clean.as_str()) || starts_with_parent(lf_clean.as_str()) {
            let detail = match &self.global.local_files {
                Some(p) => p.clone(),
                None => String::new(),
            };
            return Err(InstallError::PathSafety { detail });
        }
        let fp_clean = clean_path(file_path.as_str());
        if is_absolute_path(fp_clean.as_str()) {
            return Err(InstallError::PathSafety { detail: file_path.clone() });
        }
        Ok(join_path(join_path(root_clean.as_str(), lf_clean.as_str()).as_str(), fp_clean.as_str()))
    }

    /// The directory local origins resolve under: manifest root joined with
    /// the configured subdirectory, which must be neither absolute nor
    /// parent-climbing.
    pub fn get_local_files_location(&self) -> (r: Result<String, InstallError>)
        ensures
            ({
                let lf = local_files_cleaned(&self.global);
                match r {
                    Ok(p) => !local_subdir_invalid(lf) && p@ == join_spec(
                        clean_spec(manifest_root_spec(self.opts.manifest_path@, self.game_dir@)),
                        lf,
                    ),
                    Err(e) => {
                        &&& e matches InstallError::PathSafety { detail }
                        &&& local_subdir_invalid(lf)
                        &&& self.global.local_files matches Some(raw) && detail@ == raw@
                    },
                }
            }),
    {
        let root = self.get_manifest_root();
        let root_clean = clean_path(root.as_str());
        let lf_clean = match &self.global.local_files {
            None => String::new(),
            Some(p) => clean_path(p.as_str()),
        };
        if is_absolute_path(lf_clean.as_str()) || starts_with_parent(lf_clean.as_str()) {
            let detail = match &self.global.local_files {
                Some(p) => p.clone(),
                None => String::new(),
            };
            return Err(InstallError::PathSafety { detail });
        }
        Ok(join_path(root_clean.as_str(), lf_clean.as_str()))
    }

    /// Resolves one origin to its base directory. A failure is always a
    /// path-safety rejection, and a local origin fails exactly when it is
    /// invalid; an absolute origin may also fail when canonicalization
    /// does.
    pub fn get_origin_base(&self, origin: &FileModuleOrigin) -> (r: Result<String, InstallError>)
        ensures
            match r {
                Ok(p) => !self.origin_invalid(origin) && self.origin_base_ok(origin, p@),
                Err(e) => e is PathSafety && (origin is Absolute || self.origin_invalid(origin)),
            },
            self.origin_invalid(origin) ==> r is Err,
    {
        match origin {
            FileModuleOrigin::Absolute { absolute, .. } => check_absolute(absolute.as_str()),
            FileModuleOrigin::Local { local, .. } => self.get_local_base_path(local),
        }
    }

    /// Resolves every origin to a base directory with its glob restriction.
    /// Resolution stops at the first origin that does not resolve and
    /// reports that origin's error alone; later origins are not examined.
    /// Every invalid local origin makes the whole call fail.
    pub fn get_file_globs(&self, origins: &Vec<FileModuleOrigin>) -> (r: Result<
        Vec<CopyGlob>,
        InstallError,
    >)
        ensures
            match r {
                Ok(globs) => {
                    &&& globs@.len() == origins@.len()
                    &&& forall|i: int|
                        0 <= i < origins@.len() ==> {
                            &&& !self.origin_invalid(&origins@[i])
                            &&& self.origin_base_ok(&origins@[i], globs@[i].base@)
                            &&& match globs@[i].glob {
                                Option::Some(g) => origins@[i].glob_spec() == Option::Some(g@),
                                Option::None => origins@[i].glob_spec() is None,
                            }
                        }
                },
                Err(e) => e is PathSafety && exists|i: int|
                    #![trigger origins@[i]]
                    0 <= i < origins@.len() && (origins@[i] is Absolute || self.origin_invalid(
                        &origins@[i],
                    )),
            },
            (exists|i: int| 0 <= i < origins@.len() && self.origin_invalid(&origins@[i])) ==> r is Err,
    {
        let mut globs: Vec<CopyGlob> = Vec::new();
        let mut i: usize = 0;
        while i < origins.len()
            invariant
                i <= origins@.len(),
                globs@.len() == i,
                forall|j: int|
                    0 <= j < i ==> {
                        &&& !self.origin_invalid(&origins@[j])
                        &&& self.origin_base_ok(&origins@[j], globs@[j].base@)
                        &&& match globs@[j].glob {
                            Option::Some(g) => origins@[j].glob_spec() == Option::Some(g@),
                            Option::None => origins@[j].glob_spec() is None,
                        }
                    },
            decreases origins@.len() - i,
        {
            let base = match self.get_origin_base(&origins[i]) {
                Ok(base) => base,
                Err(e) => {
                    proof {
                        assert(origins@[i as int] is Absolute || self.origin_invalid(
                            &origins@[i as int],
                        ));
                    }
                    return Err(e);
                },
            };
            let glob = match origins[i].glob() {
                Some(g) => Some(g.clone()),
                None => None,
            };
            globs.push(CopyGlob { base, glob });
            i = i + 1;
        }
        Ok(globs)
    }

    /// Copies from each resolved base into the target, after making sure
    /// the target directory exists.
    pub fn copy_from_globs(
        &self,
        globs: &Vec<CopyGlob>,
        target: &String,
        allow_overwrite: bool,
    ) -> (r: Result<(), InstallError>)
        ensures
            r matches Err(e) ==> e is Placement || e is Selection,
    {
        if !create_dirs(target.as_str()) {
            return Err(InstallError::Placement { detail: target.clone() });
        }
        let mut i: usize = 0;
        while i < globs.len()
            invariant
                i <= globs@.len(),
            decreases globs@.len() - i,
        {
            match self.copy_from_glob(&globs[i], target, allow_overwrite) {
                Ok(()) => (),
                Err(e) => return Err(e),
            }
            i = i + 1;
        }
        Ok(())
    }

    /// Copies one resolved origin: without a glob the base directory's
    /// contents are copied wholesale; with a glob each matching file under
    /// the base is copied individually, case-insensitively and at any
    /// depth.
    fn copy_from_glob(
        &self,
        copy_glob: &CopyGlob,
        target: &String,
        allow_overwrite: bool,
    ) -> (r: Result<(), InstallError>)
        ensures
            r matches Err(e) ==> e is Placement || e is Selection,
    {
        match &copy_glob.glob {
            None => copy_directory(&copy_glob.base, target, false, allow_overwrite),
            Some(glob) => {
                let mut patterns: Vec<String> = Vec::new();
                patterns.push(glob.clone());
                let items = match glob_walk(copy_glob.base.as_str(), &patterns, None, None) {
                    None => return Err(InstallError::Selection { detail: glob.clone() }),
                    Some(items) => items,
                };
                let mut i: usize = 0;
                while i < items.len()
                    invariant
                        i <= items@.len(),
                    decreases items@.len() - i,
                {
                    match copy_file(&items[i], target, false, allow_overwrite) {
                        Ok(()) => (),
                        Err(e) => return Err(e),
                    }
                    i = i + 1;
                }
                Ok(())
            }
        }
    }

    /// Installs every origin into the target directory, honoring the
    /// overwrite policy. Every origin is resolved before the target
    /// directory is created or anything is copied, so a resolution failure
    /// leaves the filesystem untouched. Any resolution or copy failure
    /// aborts the whole call; files already copied are not rolled back.
    pub fn copy_from_origins(
        &self,
        origins: &Vec<FileModuleOrigin>,
        target: &String,
        allow_overwrite: bool,
    ) -> (r: Result<(), InstallError>)
        ensures
            r matches Err(e) ==> e is PathSafety || e is Placement || e is Selection,
            (r matches Err(e) && e is PathSafety) ==> exists|i: int|
                #![trigger origins@[i]]
                0 <= i < origins@.len() && (origins@[i] is Absolute || self.origin_invalid(
                    &origins@[i],
                )),
            r is Ok ==> forall|i: int|
                0 <= i < origins@.len() ==> !self.origin_invalid(&origins@[i]),
            (exists|i: int| 0 <= i < origins@.len() && self.origin_invalid(&origins@[i])) ==> r is Err,
    {
        let globs = match self.get_file_globs(origins) {
            Ok(globs) => globs,
            Err(e) => return Err(e),
        };
        self.copy_from_globs(&globs, target, allow_overwrite)
    }

    /// Installs a single origin into the target directory.
    pub fn copy_from_origin(
        &self,
        origin: &FileModuleOrigin,
        target: &String,
        allow_overwrite: bool,
    ) -> (r: Result<(), InstallError>)
        ensures
            r matches Err(e) ==> e is PathSafety || e is Placement || e is Selection,
            (r matches Err(e) && e is PathSafety) ==> *origin is Absolute || self.origin_invalid(
                origin,
            ),
            r is Ok ==> !self.origin_invalid(origin),
            self.origin_invalid(origin) ==> r is Err,
    {
        let mut origins: Vec<FileModuleOrigin> = Vec::new();
        origins.push(origin.clone());
        proof {
            if self.origin_invalid(origin) {
                assert(self.origin_invalid(&origins@[0]));
                assert(exists|i: int|
                    0 <= i < origins@.len() && self.origin_invalid(&origins@[i]));
            }
        }
        self.copy_from_origins(&origins, target, allow_overwrite)
    }
}

/// Copies one file or directory entry into the target directory, failing on
/// collision unless overwriting is allowed.
fn copy_file(origin: &String, target: &String, ensure_dirs: bool, allow_overwrite: bool) -> (r:
    Result<(), InstallError>)
    ensures
        r matches Err(e) ==> e is Placement,
{
    if ensure_dirs {
        if !create_dirs(target.as_str()) {
            return Err(InstallError::Placement { detail: target.clone() });
        }
    }
    let mut items: Vec<String> = Vec::new();
    items.push(origin.clone());
    if copy_items_to(&items, target.as_str(), allow_overwrite, false) {
        Ok(())
    } else {
        Err(InstallError::Placement { detail: origin.clone() })
    }
}

/// Copies a directory's contents into the target directory, failing on
/// collision unless overwriting is allowed.
fn copy_directory(origin: &String, target: &String, ensure_dirs: bool, allow_overwrite: bool) -> (r:
    Result<(), InstallError>)
    ensures
        r matches Err(e) ==> e is Placement,
{
    if ensure_dirs {
        if !create_dirs(target.as_str()) {
            return Err(InstallError::Placement { detail: target.clone() });
        }
    }
    let mut items: Vec<String> = Vec::new();
    items.push(origin.clone());
    if copy_items_to(&items, target.as_str(), allow_overwrite, true) {
        Ok(())
    } else {
        Err(InstallError::Placement { detail: origin.clone() })
    }
}

/// Whether a copy may replace an existing destination entry.
#[derive(Clone, Copy, Debug, PartialEq, Eq, Structural, Default)]
pub enum AllowOverwrite {
    Allow,
    #[default]
    Disallow,
}

/// How an origin's files are selected for copying.
#[derive(Clone, Copy, Debug, PartialEq, Eq, Structural, Default)]
pub enum CopyMode {
    Glob,
    #[default]
    File,
}

/// A structured copy policy: overwrite behavior plus selection mode.
#[derive(Clone, Copy, Debug, PartialEq, Eq, Structural, Default)]
pub struct CopyOptions {
    pub allow_overwrite: AllowOverwrite,
    pub copy_mode: CopyMode,
}

impl CopyOptions {
    pub fn new(allow_overwrite: AllowOverwrite, copy_mode: CopyMode) -> (r: CopyOptions)
        ensures
            r.allow_overwrite == allow_overwrite,
            r.copy_mode == copy_mode,
    {
        CopyOptions { allow_overwrite, copy_mode }
    }
}

} // verus!
