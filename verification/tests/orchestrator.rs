//! Retrieval planning: where each source's archive is cached or found.

use modda::args::Install;
use modda::errors::InstallError;
use modda::get_module::{replace_module, Cache, ModuleDownload, Retrieval};
use modda::location::{
    ConcreteLocation, Github, GithubDescriptor, Http, Layout, ReplaceSpec, Source,
};
use modda::lowercase::LwcString;
use modda::manifest::{Global, Module};
use modda::settings::Config;

fn concrete(source: Source) -> ConcreteLocation {
    ConcreteLocation {
        source,
        layout: Layout::default(),
        patch: None,
        replace: None,
        precopy: None,
    }
}

fn downloader(global: Global, opts: Install) -> ModuleDownload {
    ModuleDownload::new(
        Config::default(),
        global,
        opts,
        "some_dir".to_string(),
        Cache::Path("/cache_path".to_string()),
    )
}

#[test]
fn retrieve_github_location() {
    let location = concrete(Source::Github(Github {
        github_user: "username".to_string(),
        repository: "repository".to_string(),
        descriptor: GithubDescriptor::Release {
            release: Some("V1".to_string()),
            asset: "repository_v1.zip".to_string(),
        },
    }));
    let module = Module { name: LwcString::new("mod"), location: None };
    let md = downloader(Global::default(), Install::default());
    let plan = md.retrieve_plan(&location, &module).unwrap();
    match plan {
        Retrieval::Download { dest_dir, save_name } => {
            assert_eq!(dest_dir, "/cache_path/github/username/repository");
            assert_eq!(save_name, "repository_v1.zip");
        }
        other => panic!("expected a download plan, got {:?}", other),
    }
}

#[test]
fn retrieve_http_location() {
    let location = concrete(Source::Http(Http {
        http: "http://example.com/some_mod.zip".to_string(),
        rename: None,
    }));
    let module = Module { name: LwcString::new("mod"), location: None };
    let md = downloader(Global::default(), Install::default());
    let plan = md.retrieve_plan(&location, &module).unwrap();
    match plan {
        Retrieval::Download { dest_dir, save_name } => {
            assert_eq!(dest_dir, "/cache_path/http/example.com");
            assert_eq!(save_name, "some_mod.zip");
        }
        other => panic!("expected a download plan, got {:?}", other),
    }
}

#[test]
fn retrieve_absolute_location() {
    let location = concrete(Source::Absolute { path: "/some/path/file.zip".to_string() });
    let module = Module { name: LwcString::new("mod"), location: None };
    let global = Global { local_mods: Some("my_mods".to_string()), ..Global::default() };
    let opts = Install { manifest_path: "/home/me/my_install.yaml".to_string() };
    let md = downloader(global, opts);
    let plan = md.retrieve_plan(&location, &module).unwrap();
    match plan {
        Retrieval::File { path } => assert_eq!(path, "/some/path/file.zip"),
        other => panic!("expected a file plan, got {:?}", other),
    }
}

#[test]
fn retrieve_local_location() {
    let location = concrete(Source::Local { local: "some/path/file.zip".to_string() });
    let module = Module { name: LwcString::new("mod"), location: None };
    let global = Global { local_mods: Some("my_mods".to_string()), ..Global::default() };
    let opts = Install { manifest_path: "/home/me/my_install.yaml".to_string() };
    let md = downloader(global, opts);
    let plan = md.retrieve_plan(&location, &module).unwrap();
    match plan {
        Retrieval::File { path } => assert_eq!(path, "/home/me/my_mods/some/path/file.zip"),
        other => panic!("expected a file plan, got {:?}", other),
    }
}

#[test]
fn retrieve_local_cleans_dot_segments() {
    let location = concrete(Source::Local { local: "a/./b/../file.zip".to_string() });
    let module = Module { name: LwcString::new("mod"), location: None };
    let global = Global { local_mods: Some("my_mods".to_string()), ..Global::default() };
    let opts = Install { manifest_path: "/home/me/my_install.yaml".to_string() };
    let md = downloader(global, opts);
    let plan = md.retrieve_plan(&location, &module).unwrap();
    match plan {
        Retrieval::File { path } => assert_eq!(path, "/home/me/my_mods/a/file.zip"),
        other => panic!("expected a file plan, got {:?}", other),
    }
}

#[test]
fn retrieve_local_rejects_escaping_subdir() {
    let location = concrete(Source::Local { local: "file.zip".to_string() });
    let module = Module { name: LwcString::new("mod"), location: None };
    let global = Global { local_mods: Some("../escape".to_string()), ..Global::default() };
    let opts = Install { manifest_path: "/home/me/my_install.yaml".to_string() };
    let md = downloader(global, opts);
    let err = md.retrieve_plan(&location, &module).unwrap_err();
    assert!(matches!(err, InstallError::PathSafety { .. }));
}

#[test]
fn manifest_root_falls_back_to_game_dir() {
    let md = downloader(Global::default(), Install::default());
    assert_eq!(md.get_manifest_root(), "some_dir");
    let opts = Install { manifest_path: "/home/me/my_install.yaml".to_string() };
    let md = downloader(Global::default(), opts);
    assert_eq!(md.get_manifest_root(), "/home/me");
}

#[test]
fn replace_module_targets_in_order() {
    let specs = vec![
        ReplaceSpec {
            file_globs: vec!["README.md".to_string()],
            replace: "typpo".to_string(),
            with_text: "typo".to_string(),
        },
        ReplaceSpec {
            file_globs: vec!["*.txt".to_string()],
            replace: "colour".to_string(),
            with_text: "color".to_string(),
        },
    ];
    let targets = replace_module("game", &LwcString::new("MyMod"), &Some(specs));
    assert_eq!(targets, vec!["game/mymod".to_string(), "game/mymod".to_string()]);
    let none = replace_module("game", &LwcString::new("MyMod"), &None);
    assert!(none.is_empty());
}
