//! Source resolution: cache subdirectories, archive save names, strip
//! depths.

use modda::errors::InstallError;
use modda::location::{GitBranch, Github, GithubDescriptor, Http, RefreshCondition, Source};
use modda::lowercase::LwcString;

fn github(descriptor: GithubDescriptor) -> Source {
    Source::Github(Github {
        github_user: "u".to_string(),
        repository: "r".to_string(),
        descriptor,
    })
}

#[test]
fn save_name_honors_rename() {
    let source = Source::Http(Http {
        http: "http://example.com/dir/archive_v3.tgz".to_string(),
        rename: Some("renamed.zip".to_string()),
    });
    let name = source.save_name(&LwcString::new("mymod")).unwrap();
    assert_eq!(name, "renamed.zip");
}

#[test]
fn save_name_uses_decoded_last_segment() {
    let source = Source::Http(Http {
        http: "http://example.com/dir/pkg%20v1.zip".to_string(),
        rename: None,
    });
    let name = source.save_name(&LwcString::new("mymod")).unwrap();
    assert_eq!(name, "pkg v1.zip");
}

#[test]
fn save_name_fails_without_segments_or_rename() {
    let source = Source::Http(Http {
        http: "mailto:someone@example.com".to_string(),
        rename: None,
    });
    let err = source.save_name(&LwcString::new("mymod")).unwrap_err();
    assert!(matches!(err, InstallError::SourceResolution { .. }));
}

#[test]
fn save_name_fails_on_unparsable_url() {
    let source = Source::Http(Http {
        http: "not a url at all".to_string(),
        rename: None,
    });
    let err = source.save_name(&LwcString::new("mymod")).unwrap_err();
    assert!(matches!(err, InstallError::SourceResolution { .. }));
}

#[test]
fn save_subdir_uses_url_host() {
    let source = Source::Http(Http {
        http: "http://example.com/dir/pkg_v1.zip".to_string(),
        rename: None,
    });
    assert_eq!(source.save_subdir().unwrap(), "http/example.com");
}

#[test]
fn save_subdir_fails_without_host() {
    let source = Source::Http(Http {
        http: "mailto:someone@example.com".to_string(),
        rename: None,
    });
    let err = source.save_subdir().unwrap_err();
    assert!(matches!(err, InstallError::SourceResolution { .. }));
}

#[test]
fn save_subdir_empty_for_local_and_absolute() {
    let local = Source::Local { local: "a/b.zip".to_string() };
    let absolute = Source::Absolute { path: "/a/b.zip".to_string() };
    assert_eq!(local.save_subdir().unwrap(), "");
    assert_eq!(absolute.save_subdir().unwrap(), "");
    assert_eq!(local.save_name(&LwcString::new("m")).unwrap(), "");
    assert_eq!(absolute.save_name(&LwcString::new("m")).unwrap(), "");
}

#[test]
fn save_subdir_ignores_github_descriptor() {
    let commit = github(GithubDescriptor::Commit { commit: "abc123".to_string() });
    let tag = github(GithubDescriptor::Tag { tag: "v2".to_string() });
    let release = github(GithubDescriptor::Release {
        release: Some("1.0".to_string()),
        asset: "asset.zip".to_string(),
    });
    let branch = github(GithubDescriptor::Branch(GitBranch {
        branch: "main".to_string(),
        refresh: RefreshCondition::Never,
    }));
    assert_eq!(commit.save_subdir().unwrap(), "github/u/r");
    assert_eq!(tag.save_subdir().unwrap(), "github/u/r");
    assert_eq!(release.save_subdir().unwrap(), "github/u/r");
    assert_eq!(branch.save_subdir().unwrap(), "github/u/r");
}

#[test]
fn save_name_for_github_descriptors() {
    let module = LwcString::new("MyMod");
    let commit = github(GithubDescriptor::Commit { commit: "abc123".to_string() });
    let tag = github(GithubDescriptor::Tag { tag: "v2".to_string() });
    let release = github(GithubDescriptor::Release {
        release: Some("1.0".to_string()),
        asset: "asset.zip".to_string(),
    });
    let branch = github(GithubDescriptor::Branch(GitBranch {
        branch: "main".to_string(),
        refresh: RefreshCondition::Never,
    }));
    assert_eq!(commit.save_name(&module).unwrap(), "mymod-abc123.zip");
    assert_eq!(tag.save_name(&module).unwrap(), "mymod-v2.zip");
    assert_eq!(release.save_name(&module).unwrap(), "asset.zip");
    assert_eq!(branch.save_name(&module).unwrap(), "mymod-main.zip");
}

#[test]
fn default_strip_leading_per_source() {
    let commit = github(GithubDescriptor::Commit { commit: "abc".to_string() });
    let tag = github(GithubDescriptor::Tag { tag: "v2".to_string() });
    let branch = github(GithubDescriptor::Branch(GitBranch {
        branch: "main".to_string(),
        refresh: RefreshCondition::Never,
    }));
    let release = github(GithubDescriptor::Release {
        release: None,
        asset: "asset.zip".to_string(),
    });
    let http = Source::Http(Http { http: "http://example.com/a.zip".to_string(), rename: None });
    let local = Source::Local { local: "a.zip".to_string() };
    let absolute = Source::Absolute { path: "/a.zip".to_string() };
    assert_eq!(commit.default_strip_leading(), 1);
    assert_eq!(tag.default_strip_leading(), 1);
    assert_eq!(branch.default_strip_leading(), 1);
    assert_eq!(release.default_strip_leading(), 0);
    assert_eq!(http.default_strip_leading(), 0);
    assert_eq!(local.default_strip_leading(), 0);
    assert_eq!(absolute.default_strip_leading(), 0);
}

#[test]
fn http_module_end_to_end_names() {
    let source = Source::Http(Http {
        http: "http://example.com/dir/pkg_v1.zip".to_string(),
        rename: None,
    });
    assert_eq!(source.save_subdir().unwrap(), "http/example.com");
    assert_eq!(source.save_name(&LwcString::new("m1")).unwrap(), "pkg_v1.zip");
}

#[test]
fn github_module_end_to_end_names() {
    let source = github(GithubDescriptor::Tag { tag: "v2".to_string() });
    assert_eq!(source.save_subdir().unwrap(), "github/u/r");
    assert_eq!(source.save_name(&LwcString::new("m2")).unwrap(), "m2-v2.zip");
    assert_eq!(source.default_strip_leading(), 1);
}

#[test]
fn fixed_sources_have_expected_shape() {
    assert!(matches!(Source::http_source(), Source::Http(_)));
    assert!(matches!(
        Source::gh_release_source(),
        Source::Github(Github { descriptor: GithubDescriptor::Release { .. }, .. })
    ));
    assert!(matches!(
        Source::gh_branch_source(),
        Source::Github(Github { descriptor: GithubDescriptor::Branch(_), .. })
    ));
}
