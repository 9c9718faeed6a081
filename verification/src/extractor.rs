//! Archive extraction: format dispatch by extension, unpacking into an
//! ephemeral workspace, the optional pre-copy hook, glob-and-depth file
//! selection, and the move into the destination tree.

use vstd::prelude::*;
use vstd::string::*;

use crate::errors::InstallError;
use crate::fsops::{
    create_dirs, expand_tilde, glob_matches, glob_walk, gunzip_bytes, make_temp_dir,
    make_temp_dir_in, move_items_to, read_file_bytes, run_command, temp_dir_path, untar_bytes,
    unzip_bytes,
};
use crate::location::{clone_string_vec, default_strip_spec, ConcreteLocation, PrecopyCommand};
use crate::lowercase::{lower_of, LwcString};
use crate::pathutil::{
    depth_bounded, extension_of_name, extension_spec, file_name, file_name_spec, join_path,
    split_extension, stem_of_name,
};
use crate::settings::{find_extractor, Config, ExtractorCommand};
use crate::strutil::{
    contains_sub, contains_sub_str, dedup_strings, is_blank, is_blank_spec, replace_all,
    replace_spec, str_eq,
};

verus! {

/// How an archive is handled, decided by its file extension alone.
#[derive(Debug)]
pub enum ArchiveDispatch {
    /// `zip` and `iemod` archives: the built-in zip decoder.
    Zip,
    /// `tgz` archives, and `gz` archives whose inner stem ends in `.tar`:
    /// the built-in gzip+tar decoder.
    Tgz,
    /// Any other extension: the external tool configured for it.
    External { extension: String },
    /// A bare `gz` with no `.tar` inner stem.
    UnsupportedGz,
    /// No usable extension.
    NoExtension,
}

/// Whether a `gz` archive wraps a tar stream: the stem of its file name has
/// the extension `tar`.
pub open spec fn gz_wraps_tar(path: Seq<char>) -> bool {
    extension_of_name(stem_of_name(file_name_spec(path))) == Option::Some("tar"@)
}

/// Decides how an archive path is handled. The extension is compared
/// exactly, in the case the path carries.
pub fn classify_archive(path: &str) -> (r: ArchiveDispatch)
    ensures
        ({
            let ext = extension_spec(path@);
            match r {
                ArchiveDispatch::Zip => ext == Option::Some("zip"@) || ext == Option::Some(
                    "iemod"@,
                ),
                ArchiveDispatch::Tgz => ext == Option::Some("tgz"@) || (ext == Option::Some("gz"@)
                    && gz_wraps_tar(path@)),
                ArchiveDispatch::UnsupportedGz => ext == Option::Some("gz"@) && !gz_wraps_tar(
                    path@,
                ),
                ArchiveDispatch::External { extension } => {
                    &&& ext == Option::Some(extension@)
                    &&& extension@ != "zip"@
                    &&& extension@ != "iemod"@
                    &&& extension@ != "tgz"@
                    &&& extension@ != "gz"@
                },
                ArchiveDispatch::NoExtension => ext is None,
            }
        }),
{
    let name = file_name(path);
    let (stem, ext) = split_extension(name.as_str());
    match ext {
        None => ArchiveDispatch::NoExtension,
        Some(ext) => {
            if str_eq(ext.as_str(), "zip") || str_eq(ext.as_str(), "iemod") {
                ArchiveDispatch::Zip
            } else if str_eq(ext.as_str(), "tgz") {
                ArchiveDispatch::Tgz
            } else if str_eq(ext.as_str(), "gz") {
                let (_, inner) = split_extension(stem.as_str());
                match inner {
                    Some(inner) => {
                        if str_eq(inner.as_str(), "tar") {
                            ArchiveDispatch::Tgz
                        } else {
                            ArchiveDispatch::UnsupportedGz
                        }
                    }
                    None => ArchiveDispatch::UnsupportedGz,
                }
            } else {
                ArchiveDispatch::External { extension: ext }
            }
        }
    }
}

/// A pattern set that selects nothing by construction: it is empty, or
/// every pattern in it is blank.
pub open spec fn selection_invalid(patterns: Seq<Seq<char>>) -> bool {
    patterns.len() == 0 || forall|i: int| 0 <= i < patterns.len() ==> is_blank_spec(patterns[i])
}

/// Whether a location's own pattern set selects nothing.
pub open spec fn location_selection_invalid(location: &ConcreteLocation) -> bool {
    selection_invalid(location.layout.patterns.deep_view())
}

/// Decides whether a pattern set selects nothing.
pub fn selection_is_invalid(patterns: &Vec<String>) -> (r: bool)
    ensures
        r == selection_invalid(patterns.deep_view()),
{
    proof {
        assert(patterns.deep_view().len() == patterns@.len());
    }
    if patterns.len() == 0 {
        return true;
    }
    let mut i: usize = 0;
    while i < patterns.len()
        invariant
            i <= patterns@.len(),
            forall|j: int| #![trigger patterns@[j]] 0 <= j < i ==> is_blank_spec(patterns@[j]@),
        decreases patterns@.len() - i,
    {
        if !is_blank(patterns[i].as_str()) {
            proof {
                assert(patterns.deep_view()[i as int] == patterns@[i as int]@);
            }
            return false;
        }
        i = i + 1;
    }
    proof {
        assert forall|j: int| 0 <= j < patterns.deep_view().len() implies is_blank_spec(
            patterns.deep_view()[j],
        ) by {
            assert(patterns.deep_view()[j] == patterns@[j]@);
        }
    }
    true
}

/// One argument of an external extractor command with its placeholders
/// substituted: `${input}` becomes the archive path, else `${target}` the
/// extraction directory; an argument with neither placeholder is kept.
pub open spec fn subst_arg(arg: Seq<char>, input: Seq<char>, target: Seq<char>) -> Seq<char> {
    if contains_sub(arg, "${input}"@) {
        replace_spec(arg, "${input}"@, input)
    } else if contains_sub(arg, "${target}"@) {
        replace_spec(arg, "${target}"@, target)
    } else {
        arg
    }
}

/// Substitutes the placeholders of every argument of an external extractor
/// command. In this crate paths are text, so substitution cannot fail.
pub fn build_external_args(args: &Vec<String>, input: &str, target: &str) -> (r: Vec<String>)
    ensures
        r@.len() == args@.len(),
        forall|i: int| #![trigger r@[i]]
            0 <= i < args@.len() ==> r@[i]@ == subst_arg(args@[i]@, input@, target@),
{
    proof {
        reveal_strlit("${input}");
        reveal_strlit("${target}");
    }
    let mut out: Vec<String> = Vec::new();
    let mut i: usize = 0;
    while i < args.len()
        invariant
            i <= args@.len(),
            out@.len() == i,
            forall|j: int| #![trigger out@[j]]
                0 <= j < i ==> out@[j]@ == subst_arg(args@[j]@, input@, target@),
            "${input}"@.len() > 0,
            "${target}"@.len() > 0,
        decreases args@.len() - i,
    {
        let arg = &args[i];
        let substituted = if contains_sub_str(arg.as_str(), "${input}") {
            replace_all(arg.as_str(), "${input}", input)
        } else if contains_sub_str(arg.as_str(), "${target}") {
            replace_all(arg.as_str(), "${target}", target)
        } else {
            arg.clone()
        };
        out.push(substituted);
        i = i + 1;
    }
    out
}

/// Unpacks archives and places their selected files into the game
/// directory.
pub struct Extractor {
    pub game_dir: String,
    pub config: Config,
}

impl Extractor {
    pub fn new(game_dir: String, config: Config) -> (r: Extractor)
        ensures
            r.game_dir == game_dir,
            r.config == config,
    {
        Extractor { game_dir, config }
    }

    /// Extracts the archive's selected files into the game directory: the
    /// format is dispatched on the archive's extension, the archive is
    /// unpacked into a fresh temporary directory, the optional pre-copy
    /// hook runs there, and the files selected by the location's layout
    /// move into the game directory.
    pub fn extract_files(
        &self,
        archive: &str,
        module_name: &LwcString,
        location: &ConcreteLocation,
    ) -> (r: Result<(), InstallError>)
        requires
            strip_in_bounds(location),
        ensures
            self.dispatch_contract(archive@, module_name@, location, r),
    {
        self._extract_files(archive, module_name, location)
    }

    /// What the extension dispatch guarantees: a path with no usable
    /// extension or a bare `gz` is refused as such, and a format failure
    /// comes on no other input; a configuration failure comes exactly from
    /// an external extension with no configured tool; a pattern set that
    /// selects nothing always fails; and every failure carries one of the
    /// extraction pipeline's error kinds.
    pub open spec fn dispatch_contract(
        &self,
        archive: Seq<char>,
        module_name: Seq<char>,
        location: &ConcreteLocation,
        r: Result<(), InstallError>,
    ) -> bool {
        let ext = extension_spec(archive);
        &&& (ext is None ==> (r matches Err(e) && e matches InstallError::ArchiveFormat {
            detail,
        } && detail@ == archive))
        &&& (ext == Option::Some("gz"@) && !gz_wraps_tar(archive) ==> (r matches Err(e)
            && e matches InstallError::ArchiveFormat { detail } && detail@ == archive))
        &&& (location_selection_invalid(location) ==> (r matches Err(e) && (
            (e matches InstallError::Selection { detail } && detail@ == module_name)
            || e is ArchiveFormat || e is Configuration || e is Extraction || e is Hook)))
        &&& match r {
            Ok(_) => true,
            Err(e) => {
                &&& (e is ArchiveFormat || e is Configuration || e is Extraction || e is Hook
                    || e is Selection || e is Placement)
                &&& (e is ArchiveFormat ==> ext is None || (ext == Option::Some("gz"@)
                    && !gz_wraps_tar(archive)))
                &&& (e is Configuration ==> exists|x: Seq<char>|
                    {
                        &&& ext == Option::Some(x)
                        &&& x != "zip"@ && x != "iemod"@ && x != "tgz"@ && x != "gz"@
                        &&& #[trigger] find_extractor(self.config.extractors@, lower_of(x))
                            is None
                    })
            },
        }
    }

    fn _extract_files(
        &self,
        archive: &str,
        module_name: &LwcString,
        location: &ConcreteLocation,
    ) -> (r: Result<(), InstallError>)
        requires
            strip_in_bounds(location),
        ensures
            self.dispatch_contract(archive@, module_name@, location, r),
    {
        proof {
            reveal_strlit("zip");
            reveal_strlit("iemod");
            reveal_strlit("tgz");
            reveal_strlit("gz");
            assert("zip"@.len() == 3);
            assert("iemod"@.len() == 5);
            assert("tgz"@.len() == 3);
            assert("gz"@.len() == 2);
        }
        let dispatch = classify_archive(archive);
        match dispatch {
            ArchiveDispatch::NoExtension => Err(InstallError::ArchiveFormat {
                detail: String::from_str(archive),
            }),
            ArchiveDispatch::UnsupportedGz => Err(InstallError::ArchiveFormat {
                detail: String::from_str(archive),
            }),
            ArchiveDispatch::Zip => self.extract_zip(archive, module_name, location),
            ArchiveDispatch::Tgz => self.extract_tgz(archive, module_name, location),
            ArchiveDispatch::External { extension } => {
                let r = self.extract_external(archive, module_name, extension.as_str(), location);
                proof {
                    if r is Err && r->Err_0 is Configuration {
                        assert(find_extractor(self.config.extractors@, lower_of(extension@))
                            is None);
                    }
                }
                r
            },
        }
    }

    /// Unpacks a zip archive and places its selected files.
    fn extract_zip(
        &self,
        archive: &str,
        module_name: &LwcString,
        location: &ConcreteLocation,
    ) -> (r: Result<(), InstallError>)
        requires
            strip_in_bounds(location),
        ensures
            location_selection_invalid(location) ==> (r matches Err(e) && (
                (e matches InstallError::Selection { detail } && detail@ == module_name@)
                || e is Extraction || e is Hook)),
            r matches Err(e) ==> (e is Extraction || e is Hook || e is Selection || e is Placement),
    {
        let bytes = match read_file_bytes(archive) {
            None => return Err(InstallError::Extraction { detail: String::from_str(archive) }),
            Some(bytes) => bytes,
        };
        let temp_dir = match self.create_temp_dir() {
            Err(e) => return Err(e),
            Ok(td) => td,
        };
        let temp_path = temp_dir_path(&temp_dir);
        if !unzip_bytes(&bytes, temp_path.as_str()) {
            return Err(InstallError::Extraction { detail: String::from_str(archive) });
        }
        if let Some(precopy) = &location.precopy {
            match self.run_precopy_command(temp_path.as_str(), precopy) {
                Err(e) => return Err(e),
                Ok(()) => (),
            }
        }
        self.move_from_temp_dir(temp_path.as_str(), module_name, location)
    }

    /// Unpacks a gzip-compressed tar archive and places its selected files.
    fn extract_tgz(
        &self,
        archive: &str,
        module_name: &LwcString,
        location: &ConcreteLocation,
    ) -> (r: Result<(), InstallError>)
        requires
            strip_in_bounds(location),
        ensures
            location_selection_invalid(location) ==> (r matches Err(e) && (
                (e matches InstallError::Selection { detail } && detail@ == module_name@)
                || e is Extraction || e is Hook)),
            r matches Err(e) ==> (e is Extraction || e is Hook || e is Selection || e is Placement),
    {
        let bytes = match read_file_bytes(archive) {
            None => return Err(InstallError::Extraction { detail: String::from_str(archive) }),
            Some(bytes) => bytes,
        };
        let tar_bytes = match gunzip_bytes(&bytes) {
            None => return Err(InstallError::Extraction { detail: String::from_str(archive) }),
            Some(tar_bytes) => tar_bytes,
        };
        let temp_dir = match self.create_temp_dir() {
            Err(e) => return Err(e),
            Ok(td) => td,
        };
        let temp_path = temp_dir_path(&temp_dir);
        if !untar_bytes(&tar_bytes, temp_path.as_str()) {
            return Err(InstallError::Extraction { detail: String::from_str(archive) });
        }
        if let Some(precopy) = &location.precopy {
            match self.run_precopy_command(temp_path.as_str(), precopy) {
                Err(e) => return Err(e),
                Ok(()) => (),
            }
        }
        self.move_from_temp_dir(temp_path.as_str(), module_name, location)
    }

    /// Unpacks an archive through the external tool configured for its
    /// extension, then places its selected files. Fails with a
    /// configuration error exactly when no tool is configured for the
    /// lowercased extension.
    fn extract_external(
        &self,
        archive: &str,
        module_name: &LwcString,
        extension: &str,
        location: &ConcreteLocation,
    ) -> (r: Result<(), InstallError>)
        requires
            strip_in_bounds(location),
        ensures
            location_selection_invalid(location) ==> (r matches Err(e) && (
                (e matches InstallError::Selection { detail } && detail@ == module_name@)
                || e is Configuration || e is Extraction || e is Hook)),
            match r {
                Ok(_) => find_extractor(self.config.extractors@, lower_of(extension@)) is Some,
                Err(e) => (e is Configuration <==> find_extractor(
                    self.config.extractors@,
                    lower_of(extension@),
                ) is None),
            },
            r matches Err(e) ==> (e is Configuration || e is Extraction || e is Hook
                || e is Selection || e is Placement),
    {
        let tool = match self.extractor_command(extension) {
            Err(e) => return Err(e),
            Ok(tool) => tool,
        };
        let command = tool.command.clone();
        let args = clone_string_vec(&tool.args);
        let temp_dir = match self.create_temp_dir() {
            Err(e) => return Err(e),
            Ok(td) => td,
        };
        let temp_path = temp_dir_path(&temp_dir);
        let full_args = build_external_args(&args, archive, temp_path.as_str());
        match run_command(command.as_str(), &full_args, None) {
            None => return Err(InstallError::Extraction { detail: command }),
            Some(false) => return Err(InstallError::Extraction { detail: command }),
            Some(true) => (),
        }
        if let Some(precopy) = &location.precopy {
            match self.run_precopy_command(temp_path.as_str(), precopy) {
                Err(e) => return Err(e),
                Ok(()) => (),
            }
        }
        self.move_from_temp_dir(temp_path.as_str(), module_name, location)
    }

    /// The external tool configured for an extension, looked up under the
    /// extension's lowercased form.
    pub fn extractor_command(&self, extension: &str) -> (r: Result<
        &ExtractorCommand,
        InstallError,
    >)
        ensures
            match r {
                Ok(cmd) => find_extractor(self.config.extractors@, lower_of(extension@))
                    == Option::Some(*cmd),
                Err(e) => {
                    &&& find_extractor(self.config.extractors@, lower_of(extension@)) is None
                    &&& e matches InstallError::Configuration { detail } && detail@ == extension@
                },
            },
    {
        let key = LwcString::new(extension);
        match self.config.extractor_for(&key) {
            Some(cmd) => Ok(cmd),
            None => Err(InstallError::Configuration { detail: String::from_str(extension) }),
        }
    }

    /// Creates the ephemeral extraction workspace: under the configured
    /// extraction root (created if missing, `~` expanded) when one is set,
    /// else under the system default location.
    fn create_temp_dir(&self) -> (r: Result<tempfile::TempDir, InstallError>)
        ensures
            r matches Err(e) ==> e is Extraction,
    {
        match &self.config.extract_location {
            None => match make_temp_dir() {
                None => Err(InstallError::Extraction { detail: String::new() }),
                Some(td) => Ok(td),
            },
            Some(extract_location) => {
                let expanded = expand_tilde(extract_location.as_str());
                if !create_dirs(expanded.as_str()) {
                    return Err(InstallError::Extraction { detail: expanded });
                }
                match make_temp_dir_in(expanded.as_str()) {
                    None => Err(InstallError::Extraction { detail: expanded }),
                    Some(td) => Ok(td),
                }
            }
        }
    }

    /// Runs the configured pre-copy command with the unpacked archive (or
    /// its configured subdirectory) as working directory, standard streams
    /// inherited. A spawn failure or an unsuccessful exit is a hook
    /// failure.
    fn run_precopy_command(&self, from: &str, precopy: &PrecopyCommand) -> (r: Result<
        (),
        InstallError,
    >)
        ensures
            r matches Err(e) ==> e matches InstallError::Hook { detail } && detail@
                == precopy.command@,
    {
        let workdir = match &precopy.subdir {
            None => String::from_str(from),
            Some(subdir) => join_path(from, subdir.as_str()),
        };
        let args = match &precopy.args {
            None => Vec::new(),
            Some(args) => clone_string_vec(args),
        };
        match run_command(precopy.command.as_str(), &args, Some(&workdir)) {
            None => Err(InstallError::Hook { detail: precopy.command.clone() }),
            Some(false) => Err(InstallError::Hook { detail: precopy.command.clone() }),
            Some(true) => Ok(()),
        }
    }

    /// The deduplicated set of unpacked files the layout selects: the glob
    /// patterns matched case-insensitively, exactly one directory level
    /// beyond the strip point of the unpacked tree.
    fn files_to_move(
        &self,
        base: &str,
        module_name: &LwcString,
        location: &ConcreteLocation,
    ) -> (r: Result<Vec<String>, InstallError>)
        requires
            strip_in_bounds(location),
        ensures
            match r {
                Ok(items) => {
                    &&& !location_selection_invalid(location)
                    &&& forall|a: int, b: int| 0 <= a < b < items@.len() ==> items@[a]@ != items@[b]@
                    &&& forall|j: int|
                        #![trigger items@[j]]
                        0 <= j < items@.len() ==> {
                            &&& depth_bounded(
                                base@,
                                items@[j]@,
                                Option::Some((location_strip(location) + 1) as usize),
                                Option::Some((location_strip(location) + 1) as usize),
                            )
                            &&& exists|k: int|
                                0 <= k < location.layout.patterns@.len() && #[trigger] glob_matches(
                                    location.layout.patterns@[k]@,
                                    items@[j]@.skip(base@.len() as int),
                                )
                        }
                },
                Err(e) => e is Selection,
            },
            location_selection_invalid(location) ==> (r matches Err(e) && e matches
                InstallError::Selection { detail } && detail@ == module_name@),
    {
        let glob_desc = location.layout.to_glob(&location.source);
        if selection_is_invalid(&glob_desc.patterns) {
            return Err(InstallError::Selection { detail: String::from_str(module_name.as_str()) });
        }
        let walked = match glob_walk(
            base,
            &glob_desc.patterns,
            Some(glob_desc.strip + 1),
            Some(glob_desc.strip + 1),
        ) {
            None => return Err(InstallError::Selection {
                detail: String::from_str(module_name.as_str()),
            }),
            Some(walked) => walked,
        };
        let items = dedup_strings(walked);
        proof {
            assert forall|j: int| #![trigger items@[j]] 0 <= j < items@.len() implies {
                &&& depth_bounded(
                    base@,
                    items@[j]@,
                    Option::Some((location_strip(location) + 1) as usize),
                    Option::Some((location_strip(location) + 1) as usize),
                )
                &&& exists|k: int|
                    0 <= k < location.layout.patterns@.len() && #[trigger] glob_matches(
                        location.layout.patterns@[k]@,
                        items@[j]@.skip(base@.len() as int),
                    )
            } by {
                let w = choose|w: int| #![trigger walked@[w]]
                    0 <= w < walked@.len() && walked@[w]@ == items@[j]@;
                assert(depth_bounded(
                    base@,
                    walked@[w]@,
                    Option::Some((glob_desc.strip + 1) as usize),
                    Option::Some((glob_desc.strip + 1) as usize),
                ));
                let k = choose|k: int|
                    0 <= k < glob_desc.patterns@.len() && #[trigger] glob_matches(
                        glob_desc.patterns@[k]@,
                        walked@[w]@.skip(base@.len() as int),
                    );
                assert(glob_desc.patterns.deep_view()[k] == location.layout.patterns.deep_view()[
                    k
                ]);
                assert(glob_desc.patterns@[k]@ == location.layout.patterns@[k]@);
                assert(glob_matches(
                    location.layout.patterns@[k]@,
                    items@[j]@.skip(base@.len() as int),
                ));
            }
        }
        Ok(items)
    }

    /// Selects the files the layout asks for and moves them into the game
    /// directory; an existing destination entry is a placement failure.
    fn move_from_temp_dir(
        &self,
        temp_dir: &str,
        module_name: &LwcString,
        location: &ConcreteLocation,
    ) -> (r: Result<(), InstallError>)
        requires
            strip_in_bounds(location),
        ensures
            location_selection_invalid(location) ==> (r matches Err(e) && e matches
                InstallError::Selection { detail } && detail@ == module_name@),
            r matches Err(e) ==> e is Selection || e is Placement,
    {
        let items = match self.files_to_move(temp_dir, module_name, location) {
            Err(e) => return Err(e),
            Ok(items) => items,
        };
        if move_items_to(&items, self.game_dir.as_str()) {
            Ok(())
        } else {
            Err(InstallError::Placement { detail: self.game_dir.clone() })
        }
    }
}

/// The strip depth one location's selection uses: its layout's own when
/// set, else the source's default.
pub open spec fn location_strip(location: &ConcreteLocation) -> usize {
    match location.layout.strip_leading {
        Option::Some(n) => n,
        Option::None => default_strip_spec(&location.source),
    }
}

/// The machine bound the extraction pipeline needs: an explicit strip depth
/// must leave room for the exclusive upper depth bound.
pub open spec fn strip_in_bounds(location: &ConcreteLocation) -> bool {
    match location.layout.strip_leading {
        Option::Some(n) => n < usize::MAX,
        Option::None => true,
    }
}

} // verus!
