//! Direct file installation: origin resolution, path safety, copying.

use modda::args::Install;
use modda::errors::InstallError;
use modda::installer::{check_absolute, validate_absolute_base, FileInstaller};
use modda::manifest::Global;
use modda::origins::FileModuleOrigin;

fn installer_at(manifest_dir: &std::path::Path, local_files: Option<&str>) -> FileInstaller {
    let manifest_path = manifest_dir.join("manifest.yml").to_string_lossy().into_owned();
    FileInstaller::new(
        Global {
            local_files: local_files.map(|s| s.to_string()),
            ..Global::default()
        },
        Install { manifest_path },
        "game_dir".to_string(),
    )
}

#[test]
fn escaping_local_files_subdir_fails_before_filesystem_access() {
    let installer = installer_at(std::path::Path::new("/home/me"), Some("../escape"));
    let target = "/tmp/should_not_be_created_by_this_test".to_string();
    let origin = FileModuleOrigin::Local { local: "file.itm".to_string(), glob: None };
    let err = installer.copy_from_origin(&origin, &target, false).unwrap_err();
    assert!(matches!(err, InstallError::PathSafety { .. }));
    assert!(!std::path::Path::new(&target).exists());
}

#[test]
fn absolute_local_files_subdir_fails() {
    let installer = installer_at(std::path::Path::new("/home/me"), Some("/etc"));
    let origin = FileModuleOrigin::Local { local: "file.itm".to_string(), glob: None };
    let err = installer
        .copy_from_origin(&origin, &"/tmp/unused_target_dir".to_string(), false)
        .unwrap_err();
    assert!(matches!(err, InstallError::PathSafety { .. }));
}

#[test]
fn absolute_local_path_fails() {
    let installer = installer_at(std::path::Path::new("/home/me"), Some("files"));
    let origin = FileModuleOrigin::Local { local: "/etc/passwd".to_string(), glob: None };
    let err = installer
        .copy_from_origin(&origin, &"/tmp/unused_target".to_string(), false)
        .unwrap_err();
    assert!(matches!(err, InstallError::PathSafety { .. }));
}

#[test]
fn filesystem_root_is_rejected_as_absolute_origin() {
    let err = check_absolute("/").unwrap_err();
    assert!(matches!(err, InstallError::PathSafety { .. }));
}

#[test]
fn missing_absolute_origin_is_rejected() {
    let err = check_absolute("/no/such/directory/for/this/test").unwrap_err();
    assert!(matches!(err, InstallError::PathSafety { .. }));
}

#[test]
fn existing_absolute_origin_resolves() {
    let dir = tempfile::tempdir().unwrap();
    let resolved = check_absolute(&dir.path().to_string_lossy()).unwrap();
    assert!(resolved.starts_with('/'));
}

#[test]
fn validate_absolute_base_rules() {
    assert!(matches!(
        validate_absolute_base("relative/path".to_string()),
        Err(InstallError::PathSafety { .. })
    ));
    assert!(matches!(
        validate_absolute_base("/".to_string()),
        Err(InstallError::PathSafety { .. })
    ));
    assert_eq!(validate_absolute_base("/opt/data".to_string()).unwrap(), "/opt/data");
}

#[test]
fn copies_local_origin_into_target() {
    let root = tempfile::tempdir().unwrap();
    fs_extra::dir::create_all(root.path().join("files/payload"), false).unwrap();
    fs_extra::file::write_all(root.path().join("files/payload/a.itm"), "item a").unwrap();
    let target_dir = tempfile::tempdir().unwrap();
    let target = target_dir.path().join("override").to_string_lossy().into_owned();
    let installer = installer_at(root.path(), Some("files"));
    let origin = FileModuleOrigin::Local { local: "payload".to_string(), glob: None };
    installer.copy_from_origin(&origin, &target, false).unwrap();
    assert_eq!(
        fs_extra::file::read_to_string(target_dir.path().join("override/payload/a.itm")).unwrap(),
        "item a"
    );
}

#[test]
fn copies_only_glob_matches() {
    let root = tempfile::tempdir().unwrap();
    fs_extra::dir::create_all(root.path().join("files/payload"), false).unwrap();
    fs_extra::file::write_all(root.path().join("files/payload/a.itm"), "item a").unwrap();
    fs_extra::file::write_all(root.path().join("files/payload/b.txt"), "note").unwrap();
    let target_dir = tempfile::tempdir().unwrap();
    let target = target_dir.path().join("override").to_string_lossy().into_owned();
    let installer = installer_at(root.path(), Some("files"));
    let origin = FileModuleOrigin::Local {
        local: "payload".to_string(),
        glob: Some("*.itm".to_string()),
    };
    installer.copy_from_origin(&origin, &target, false).unwrap();
    assert!(target_dir.path().join("override/a.itm").exists());
    assert!(!target_dir.path().join("override/b.txt").exists());
}

#[test]
fn copy_collision_without_overwrite_is_a_placement_error() {
    let root = tempfile::tempdir().unwrap();
    fs_extra::dir::create_all(root.path().join("files/payload"), false).unwrap();
    fs_extra::file::write_all(root.path().join("files/payload/a.itm"), "new").unwrap();
    let target_dir = tempfile::tempdir().unwrap();
    let target = target_dir.path().join("override").to_string_lossy().into_owned();
    fs_extra::dir::create_all(target_dir.path().join("override/payload"), false).unwrap();
    fs_extra::file::write_all(target_dir.path().join("override/payload/a.itm"), "old").unwrap();
    let installer = installer_at(root.path(), Some("files"));
    let origin = FileModuleOrigin::Local { local: "payload".to_string(), glob: None };
    let err = installer.copy_from_origin(&origin, &target, false).unwrap_err();
    assert!(matches!(err, InstallError::Placement { .. }));
    assert_eq!(
        fs_extra::file::read_to_string(target_dir.path().join("override/payload/a.itm")).unwrap(),
        "old"
    );
}

#[test]
fn copy_with_overwrite_replaces_existing_files() {
    let root = tempfile::tempdir().unwrap();
    fs_extra::dir::create_all(root.path().join("files/payload"), false).unwrap();
    fs_extra::file::write_all(root.path().join("files/payload/a.itm"), "new").unwrap();
    let target_dir = tempfile::tempdir().unwrap();
    let target = target_dir.path().join("override").to_string_lossy().into_owned();
    fs_extra::dir::create_all(target_dir.path().join("override/payload"), false).unwrap();
    fs_extra::file::write_all(target_dir.path().join("override/payload/a.itm"), "old").unwrap();
    let installer = installer_at(root.path(), Some("files"));
    let origin = FileModuleOrigin::Local { local: "payload".to_string(), glob: None };
    installer.copy_from_origin(&origin, &target, true).unwrap();
    assert_eq!(
        fs_extra::file::read_to_string(target_dir.path().join("override/payload/a.itm")).unwrap(),
        "new"
    );
}

#[test]
fn get_manifest_root_prefers_manifest_parent() {
    let installer = installer_at(std::path::Path::new("/home/me"), None);
    assert_eq!(installer.get_manifest_root(), "/home/me");
    let installer = FileInstaller::new(
        Global::default(),
        Install { manifest_path: String::new() },
        "game_dir".to_string(),
    );
    assert_eq!(installer.get_manifest_root(), "game_dir");
}

#[test]
fn local_base_path_joins_cleaned_segments() {
    let installer = installer_at(std::path::Path::new("/home/me"), Some("my_files/./sub"));
    let base = installer.get_local_base_path(&"x/../y.itm".to_string()).unwrap();
    assert_eq!(base, "/home/me/my_files/sub/y.itm");
}
