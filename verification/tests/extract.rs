//! Archive extraction: format dispatch, selection, placement, hooks.

use std::io::Write;

use modda::errors::InstallError;
use modda::extractor::{classify_archive, ArchiveDispatch, Extractor};
use modda::location::{ConcreteLocation, Layout, PrecopyCommand, Source};
use modda::lowercase::LwcString;
use modda::settings::{Config, ExtractorCommand};

fn location_with(patterns: Vec<&str>, strip: usize) -> ConcreteLocation {
    ConcreteLocation {
        source: Source::default(),
        layout: Layout {
            patterns: patterns.into_iter().map(|p| p.to_string()).collect(),
            strip_leading: Some(strip),
        },
        patch: None,
        replace: None,
        precopy: None,
    }
}

fn write_file(dir: &std::path::Path, name: &str, bytes: &[u8]) -> String {
    let mut file = tempfile::NamedTempFile::new_in(dir).unwrap();
    file.write_all(bytes).unwrap();
    let path = dir.join(name);
    file.persist(&path).unwrap();
    path.to_string_lossy().into_owned()
}

fn sample_zip_bytes() -> Vec<u8> {
    let cursor = std::io::Cursor::new(Vec::new());
    let mut writer = zip::ZipWriter::new(cursor);
    let options = zip::write::SimpleFileOptions::default();
    writer.start_file("modname/data/a.txt", options).unwrap();
    writer.write_all(b"alpha").unwrap();
    writer.start_file("modname/data/sub/b.txt", options).unwrap();
    writer.write_all(b"beta").unwrap();
    writer.finish().unwrap().into_inner()
}

fn sample_tgz_bytes() -> Vec<u8> {
    let mut tar_bytes = Vec::new();
    {
        let mut builder = tar::Builder::new(&mut tar_bytes);
        let data = b"alpha";
        let mut header = tar::Header::new_gnu();
        header.set_size(data.len() as u64);
        header.set_mode(0o644);
        header.set_cksum();
        builder.append_data(&mut header, "modname/data/a.txt", &data[..]).unwrap();
        builder.finish().unwrap();
    }
    let mut encoder = flate2::write::GzEncoder::new(Vec::new(), flate2::Compression::default());
    encoder.write_all(&tar_bytes).unwrap();
    encoder.finish().unwrap()
}

#[test]
fn classify_by_extension() {
    assert!(matches!(classify_archive("dir/a.zip"), ArchiveDispatch::Zip));
    assert!(matches!(classify_archive("a.iemod"), ArchiveDispatch::Zip));
    assert!(matches!(classify_archive("a.tgz"), ArchiveDispatch::Tgz));
    assert!(matches!(classify_archive("a.tar.gz"), ArchiveDispatch::Tgz));
    assert!(matches!(classify_archive("a.gz"), ArchiveDispatch::UnsupportedGz));
    assert!(matches!(classify_archive("a.txt.gz"), ArchiveDispatch::UnsupportedGz));
    assert!(matches!(classify_archive("noextension"), ArchiveDispatch::NoExtension));
    match classify_archive("a.rar") {
        ArchiveDispatch::External { extension } => assert_eq!(extension, "rar"),
        other => panic!("expected external dispatch, got {:?}", other),
    }
    match classify_archive("a.RAR") {
        ArchiveDispatch::External { extension } => assert_eq!(extension, "RAR"),
        other => panic!("expected external dispatch, got {:?}", other),
    }
}

#[test]
fn extract_zip_places_selected_files() {
    let work = tempfile::tempdir().unwrap();
    let game = tempfile::tempdir().unwrap();
    let archive = write_file(work.path(), "modname.zip", &sample_zip_bytes());
    let extractor = Extractor::new(
        game.path().to_string_lossy().into_owned(),
        Config::default(),
    );
    let location = location_with(vec!["data"], 1);
    extractor.extract_files(&archive, &LwcString::new("modname"), &location).unwrap();
    assert_eq!(
        fs_extra::file::read_to_string(game.path().join("data/a.txt")).unwrap(),
        "alpha"
    );
    assert_eq!(
        fs_extra::file::read_to_string(game.path().join("data/sub/b.txt")).unwrap(),
        "beta"
    );
}

#[test]
fn extract_tgz_places_selected_files() {
    let work = tempfile::tempdir().unwrap();
    let game = tempfile::tempdir().unwrap();
    let archive = write_file(work.path(), "modname.tgz", &sample_tgz_bytes());
    let extractor = Extractor::new(
        game.path().to_string_lossy().into_owned(),
        Config::default(),
    );
    let location = location_with(vec!["data"], 1);
    extractor.extract_files(&archive, &LwcString::new("modname"), &location).unwrap();
    assert_eq!(
        fs_extra::file::read_to_string(game.path().join("data/a.txt")).unwrap(),
        "alpha"
    );
}

#[test]
fn extract_tar_gz_named_archive_succeeds() {
    let work = tempfile::tempdir().unwrap();
    let game = tempfile::tempdir().unwrap();
    let archive = write_file(work.path(), "modname.tar.gz", &sample_tgz_bytes());
    let extractor = Extractor::new(
        game.path().to_string_lossy().into_owned(),
        Config::default(),
    );
    let location = location_with(vec!["data"], 1);
    extractor.extract_files(&archive, &LwcString::new("modname"), &location).unwrap();
    assert!(game.path().join("data/a.txt").exists());
}

#[test]
fn extract_bare_gz_is_a_format_error() {
    let work = tempfile::tempdir().unwrap();
    let game = tempfile::tempdir().unwrap();
    let archive = write_file(work.path(), "modname.gz", &sample_tgz_bytes());
    let extractor = Extractor::new(
        game.path().to_string_lossy().into_owned(),
        Config::default(),
    );
    let location = location_with(vec!["data"], 1);
    let err = extractor
        .extract_files(&archive, &LwcString::new("modname"), &location)
        .unwrap_err();
    assert!(matches!(err, InstallError::ArchiveFormat { .. }));
}

#[test]
fn extract_without_extension_is_a_format_error() {
    let work = tempfile::tempdir().unwrap();
    let game = tempfile::tempdir().unwrap();
    let archive = write_file(work.path(), "modname", &sample_zip_bytes());
    let extractor = Extractor::new(
        game.path().to_string_lossy().into_owned(),
        Config::default(),
    );
    let location = location_with(vec!["data"], 1);
    let err = extractor
        .extract_files(&archive, &LwcString::new("modname"), &location)
        .unwrap_err();
    assert!(matches!(err, InstallError::ArchiveFormat { .. }));
}

#[test]
fn empty_pattern_set_is_a_selection_error() {
    let work = tempfile::tempdir().unwrap();
    let game = tempfile::tempdir().unwrap();
    let archive = write_file(work.path(), "modname.zip", &sample_zip_bytes());
    let extractor = Extractor::new(
        game.path().to_string_lossy().into_owned(),
        Config::default(),
    );
    let location = location_with(Vec::<&str>::new(), 1);
    let err = extractor
        .extract_files(&archive, &LwcString::new("modname"), &location)
        .unwrap_err();
    assert!(matches!(err, InstallError::Selection { .. }));
    assert!(!game.path().join("data").exists());
    assert!(!game.path().join("modname").exists());
}

#[test]
fn all_blank_pattern_set_is_a_selection_error() {
    let work = tempfile::tempdir().unwrap();
    let game = tempfile::tempdir().unwrap();
    let archive = write_file(work.path(), "modname.zip", &sample_zip_bytes());
    let extractor = Extractor::new(
        game.path().to_string_lossy().into_owned(),
        Config::default(),
    );
    let location = location_with(vec!["  ", "\t"], 1);
    let err = extractor
        .extract_files(&archive, &LwcString::new("modname"), &location)
        .unwrap_err();
    assert!(matches!(err, InstallError::Selection { .. }));
    assert!(!game.path().join("data").exists());
}

#[test]
fn unicode_whitespace_patterns_are_blank() {
    let work = tempfile::tempdir().unwrap();
    let game = tempfile::tempdir().unwrap();
    let archive = write_file(work.path(), "modname.zip", &sample_zip_bytes());
    let extractor = Extractor::new(
        game.path().to_string_lossy().into_owned(),
        Config::default(),
    );
    // A no-break space is whitespace to `str::trim`, so a pattern made of
    // it selects nothing.
    let location = location_with(vec!["\u{a0}\u{2003}"], 1);
    let err = extractor
        .extract_files(&archive, &LwcString::new("modname"), &location)
        .unwrap_err();
    assert!(matches!(err, InstallError::Selection { .. }));
}

#[test]
fn strip_depth_window_bounds_selection() {
    let work = tempfile::tempdir().unwrap();
    let game = tempfile::tempdir().unwrap();
    let archive = write_file(work.path(), "modname.zip", &sample_zip_bytes());
    let extractor = Extractor::new(
        game.path().to_string_lossy().into_owned(),
        Config::default(),
    );
    // `sub` sits two levels beyond the strip point: outside the window,
    // nothing is selected and nothing lands in the destination.
    let location = location_with(vec!["sub"], 1);
    extractor.extract_files(&archive, &LwcString::new("modname"), &location).unwrap();
    assert!(!game.path().join("sub").exists());
    assert!(!game.path().join("data").exists());
    // `modname` sits at the strip point itself: excluded even though the
    // pattern names it.
    let location = location_with(vec!["modname"], 1);
    extractor.extract_files(&archive, &LwcString::new("modname"), &location).unwrap();
    assert!(!game.path().join("modname").exists());
    // `data` sits exactly one level beyond the strip point and is taken,
    // with its contents.
    let location = location_with(vec!["data"], 1);
    extractor.extract_files(&archive, &LwcString::new("modname"), &location).unwrap();
    assert!(game.path().join("data/a.txt").exists());
    assert!(game.path().join("data/sub/b.txt").exists());
}

#[test]
fn move_collision_is_a_placement_error() {
    let work = tempfile::tempdir().unwrap();
    let game = tempfile::tempdir().unwrap();
    let archive = write_file(work.path(), "modname.zip", &sample_zip_bytes());
    fs_extra::dir::create_all(game.path().join("data"), false).unwrap();
    fs_extra::file::write_all(game.path().join("data/a.txt"), "old").unwrap();
    let extractor = Extractor::new(
        game.path().to_string_lossy().into_owned(),
        Config::default(),
    );
    let location = location_with(vec!["data"], 1);
    let err = extractor
        .extract_files(&archive, &LwcString::new("modname"), &location)
        .unwrap_err();
    assert!(matches!(err, InstallError::Placement { .. }));
    assert_eq!(
        fs_extra::file::read_to_string(game.path().join("data/a.txt")).unwrap(),
        "old"
    );
}

#[test]
fn precopy_command_runs_before_selection() {
    let work = tempfile::tempdir().unwrap();
    let game = tempfile::tempdir().unwrap();
    let archive = write_file(work.path(), "modname.zip", &sample_zip_bytes());
    let extractor = Extractor::new(
        game.path().to_string_lossy().into_owned(),
        Config::default(),
    );
    let mut location = location_with(vec!["marker.txt"], 0);
    location.precopy = Some(PrecopyCommand {
        command: "touch".to_string(),
        args: Some(vec!["marker.txt".to_string()]),
        subdir: None,
    });
    extractor.extract_files(&archive, &LwcString::new("modname"), &location).unwrap();
    assert!(game.path().join("marker.txt").exists());
}

#[test]
fn failing_precopy_command_is_a_hook_error() {
    let work = tempfile::tempdir().unwrap();
    let game = tempfile::tempdir().unwrap();
    let archive = write_file(work.path(), "modname.zip", &sample_zip_bytes());
    let extractor = Extractor::new(
        game.path().to_string_lossy().into_owned(),
        Config::default(),
    );
    let mut location = location_with(vec!["data"], 1);
    location.precopy = Some(PrecopyCommand {
        command: "no_such_precopy_tool".to_string(),
        args: None,
        subdir: None,
    });
    let err = extractor
        .extract_files(&archive, &LwcString::new("modname"), &location)
        .unwrap_err();
    assert!(matches!(err, InstallError::Hook { .. }));
}

#[test]
fn unconfigured_external_extension_is_a_configuration_error() {
    let work = tempfile::tempdir().unwrap();
    let game = tempfile::tempdir().unwrap();
    let archive = write_file(work.path(), "modname.rar", b"not really an archive");
    let extractor = Extractor::new(
        game.path().to_string_lossy().into_owned(),
        Config::default(),
    );
    let location = location_with(vec!["data"], 1);
    let err = extractor
        .extract_files(&archive, &LwcString::new("modname"), &location)
        .unwrap_err();
    assert!(matches!(err, InstallError::Configuration { .. }));
}

#[test]
fn external_tool_extracts_with_substituted_arguments() {
    let work = tempfile::tempdir().unwrap();
    let game = tempfile::tempdir().unwrap();
    let archive = write_file(work.path(), "modname.rar", b"payload bytes");
    let config = Config {
        archive_cache: None,
        extract_location: None,
        extractors: vec![(
            LwcString::new("RAR"),
            ExtractorCommand {
                command: "cp".to_string(),
                args: vec!["${input}".to_string(), "${target}".to_string()],
            },
        )],
    };
    let extractor = Extractor::new(game.path().to_string_lossy().into_owned(), config);
    let location = location_with(vec!["modname.rar"], 0);
    extractor.extract_files(&archive, &LwcString::new("modname"), &location).unwrap();
    assert!(game.path().join("modname.rar").exists());
}

#[test]
fn missing_archive_is_an_extraction_error() {
    let game = tempfile::tempdir().unwrap();
    let extractor = Extractor::new(
        game.path().to_string_lossy().into_owned(),
        Config::default(),
    );
    let location = location_with(vec!["data"], 1);
    let err = extractor
        .extract_files("/no/such/archive.zip", &LwcString::new("modname"), &location)
        .unwrap_err();
    assert!(matches!(err, InstallError::Extraction { .. }));
}

#[test]
fn corrupt_zip_is_an_extraction_error() {
    let work = tempfile::tempdir().unwrap();
    let game = tempfile::tempdir().unwrap();
    let archive = write_file(work.path(), "modname.zip", b"this is not a zip file");
    let extractor = Extractor::new(
        game.path().to_string_lossy().into_owned(),
        Config::default(),
    );
    let location = location_with(vec!["data"], 1);
    let err = extractor
        .extract_files(&archive, &LwcString::new("modname"), &location)
        .unwrap_err();
    assert!(matches!(err, InstallError::Extraction { .. }));
}
