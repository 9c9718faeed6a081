//! Trusted boundary to the filesystem, archives and child processes.
//!
//! Every function here wraps one outside operation. Their outcomes depend on
//! the machine's state, so the contracts promise nothing about the values
//! that come back; the verified callers state what holds whatever the
//! outcome was.

use vstd::prelude::*;

use std::io::Cursor;
use std::io::Read;

verus! {

/// An exclusively owned temporary directory; the directory is removed when
/// the value is dropped.
#[verifier::external_type_specification]
#[verifier::external_body]
pub struct ExTempDir(tempfile::TempDir);

/// Relies on `tempfile::tempdir`: creates a fresh temporary directory under
/// the system default location.
#[verifier::external_body]
pub(crate) fn make_temp_dir() -> (r: Option<tempfile::TempDir>)
{
    tempfile::tempdir().ok()
}

/// Relies on `tempfile::tempdir_in`: creates a fresh temporary directory
/// under the given location.
#[verifier::external_body]
pub(crate) fn make_temp_dir_in(dir: &str) -> (r: Option<tempfile::TempDir>)
{
    tempfile::tempdir_in(dir).ok()
}

/// Relies on `tempfile::TempDir::path`: the directory's location as text.
#[verifier::external_body]
pub(crate) fn temp_dir_path(td: &tempfile::TempDir) -> (r: String)
{
    td.path().to_string_lossy().into_owned()
}

/// Relies on `std::path::Path::canonicalize`: the canonical, absolute form
/// of an existing path, `None` when resolution fails.
#[verifier::external_body]
pub(crate) fn canonicalize_path(s: &str) -> (r: Option<String>)
{
    match std::path::Path::new(s).canonicalize() {
        Ok(p) => Some(p.to_string_lossy().into_owned()),
        Err(_) => None,
    }
}

/// Relies on `fs_extra::dir::create_all`: creates the directory and its
/// missing parents; reports success.
#[verifier::external_body]
pub(crate) fn create_dirs(path: &str) -> (r: bool)
{
    fs_extra::dir::create_all(path, false).is_ok()
}

/// Relies on `shellexpand::tilde`: expands a leading `~` to the home
/// directory, an environment-dependent value.
#[verifier::external_body]
pub(crate) fn expand_tilde(s: &str) -> (r: String)
{
    shellexpand::tilde(s).into_owned()
}

/// Relies on `tokio::fs::read`: the file's contents as bytes, `None` on any
/// read failure.
#[verifier::external_body]
pub(crate) fn read_file_bytes(path: &str) -> (r: Option<Vec<u8>>)
{
    let rt = match tokio::runtime::Builder::new_current_thread().build() {
        Ok(rt) => rt,
        Err(_) => return None,
    };
    rt.block_on(tokio::fs::read(path)).ok()
}

/// Relies on `zip::ZipArchive::extract`: unpacks the zip data into the given
/// directory; reports success.
#[verifier::external_body]
pub(crate) fn unzip_bytes(bytes: &Vec<u8>, dest: &str) -> (r: bool)
{
    match zip::ZipArchive::new(Cursor::new(bytes.as_slice())) {
        Err(_) => false,
        Ok(mut archive) => archive.extract(dest).is_ok(),
    }
}

/// Relies on `flate2::read::GzDecoder`: the decompressed gzip stream, `None`
/// when the data is not valid gzip.
#[verifier::external_body]
pub(crate) fn gunzip_bytes(bytes: &Vec<u8>) -> (r: Option<Vec<u8>>)
{
    let mut decoder = flate2::read::GzDecoder::new(bytes.as_slice());
    let mut out = Vec::new();
    match decoder.read_to_end(&mut out) {
        Ok(_) => Some(out),
        Err(_) => None,
    }
}

/// Relies on `tar::Archive::unpack`: unpacks the tar data into the given
/// directory; reports success.
#[verifier::external_body]
pub(crate) fn untar_bytes(bytes: &Vec<u8>, dest: &str) -> (r: bool)
{
    tar::Archive::new(bytes.as_slice()).unpack(dest).is_ok()
}

/// Whether globwalk's matcher accepts the walked remainder `rel` under
/// `pattern`, case-insensitively, for at least one entry kind (a pattern
/// with a trailing separator accepts directories only). A function of the
/// two texts alone.
pub uninterp spec fn glob_matches(pattern: Seq<char>, rel: Seq<char>) -> bool;

/// Relies on `globwalk::GlobWalkerBuilder`: the paths under `base` matching
/// the patterns case-insensitively, within the depth bounds when given;
/// `None` when the pattern set does not build. Which paths come back
/// depends on the disk, but every one of them is a path the walk built:
/// it extends `base`, one component per directory level within the
/// requested window, and its walked remainder is accepted by one of the
/// patterns. The walk clamps a depth window whose minimum exceeds its
/// maximum, so such a window is not admitted.
#[verifier::external_body]
pub(crate) fn glob_walk(
    base: &str,
    patterns: &Vec<String>,
    min_depth: Option<usize>,
    max_depth: Option<usize>,
) -> (r: Option<Vec<String>>)
    requires
        match (min_depth, max_depth) {
            (Option::Some(a), Option::Some(b)) => a <= b,
            _ => true,
        },
    ensures
        r matches Some(items) ==> forall|i: int|
            #![trigger items@[i]]
            0 <= i < items@.len() ==> {
                &&& crate::pathutil::depth_bounded(base@, items@[i]@, min_depth, max_depth)
                &&& exists|k: int|
                    0 <= k < patterns@.len() && #[trigger] glob_matches(
                        patterns@[k]@,
                        items@[i]@.skip(base@.len() as int),
                    )
            },
{
    let mut builder = globwalk::GlobWalkerBuilder::from_patterns(base, patterns)
        .case_insensitive(true);
    if let Some(d) = min_depth { builder = builder.min_depth(d); }
    if let Some(d) = max_depth { builder = builder.max_depth(d); }
    let walker = builder.build().ok()?;
    let mut out = Vec::new();
    for entry in walker.into_iter().filter_map(Result::ok) {
        out.push(entry.into_path().to_string_lossy().into_owned());
    }
    Some(out)
}

/// Relies on `fs_extra::copy_items`: copies the items into `dest` with the
/// given overwrite policy; `copy_inside` copies a directory's contents
/// rather than nesting the directory. Reports success.
#[verifier::external_body]
pub(crate) fn copy_items_to(
    items: &Vec<String>,
    dest: &str,
    overwrite: bool,
    copy_inside: bool,
) -> (r: bool)
{
    let options = fs_extra::dir::CopyOptions {
        overwrite,
        copy_inside,
        ..Default::default()
    };
    fs_extra::copy_items(items, dest, &options).is_ok()
}

/// Relies on `fs_extra::move_items`: moves the items into `dest` without
/// overwriting existing entries; an existing destination entry is a
/// failure. Reports success.
#[verifier::external_body]
pub(crate) fn move_items_to(items: &Vec<String>, dest: &str) -> (r: bool)
{
    let options = fs_extra::dir::CopyOptions {
        copy_inside: true,
        ..Default::default()
    };
    fs_extra::move_items(items, dest, &options).is_ok()
}

/// Relies on `tokio::process::Command::status`: runs the command with the
/// given arguments and working directory, standard streams inherited.
/// `None` when the child cannot be spawned, else whether it succeeded.
#[verifier::external_body]
pub(crate) fn run_command(cmd: &str, args: &Vec<String>, workdir: Option<&String>) -> (r: Option<
    bool,
>)
{
    let rt = match tokio::runtime::Builder::new_current_thread().enable_io().build() {
        Ok(rt) => rt,
        Err(_) => return None,
    };
    let mut command = tokio::process::Command::new(cmd);
    command.args(args);
    if let Some(dir) = workdir {
        command.current_dir(dir);
    }
    let _guard = rt.enter();
    rt.block_on(command.status()).ok().map(|status| status.success())
}

} // verus!
