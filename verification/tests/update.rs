use pkg_builder::update::files::{replace_with_boundaries, substitute_content, FileSubstitutions, is_binary, is_skipped_file};
use pkg_builder::update::github::{parse_github_repo, release_version, tag_ref_url};
use pkg_builder::update::patches::{remove_from_series, series_patches, PatchAction, PatchEvent, PatchSession, PatchTestResult};
use pkg_builder::update::toml_rewrite::{rewrite_toml, TomlUpdates};
use pkg_builder::update::changelog::{changelog_entry, maintainer_from_sss, new_changelog_entry, prepend_entry};
use pkg_builder::update::{output_dir_choice, plan_new_source, resolve_new_version, SourceKind, SourceStep, UpdateConfig, UpdateError};

fn subs(old_version: &str, new_version: &str) -> FileSubstitutions {
    FileSubstitutions {
        old_version: old_version.to_string(),
        new_version: new_version.to_string(),
        old_hash: None,
        new_hash: None,
        old_tag: None,
        new_tag: None,
        old_commit: None,
        new_commit: None,
    }
}

#[test]
fn test_version_substitution() {
    let subs = FileSubstitutions {
        old_version: "1.14.0".to_string(),
        new_version: "1.15.0".to_string(),
        old_hash: None,
        new_hash: None,
        old_tag: None,
        new_tag: None,
        old_commit: None,
        new_commit: None,
    };

    let input = "version = 1.14.0\nurl = https://example.com/pkg-1.14.0.tar.gz\n";
    let result = substitute_content(input, &subs);
    assert!(result.contains("1.15.0"));
    assert!(!result.contains("1.14.0"));
}

#[test]
fn test_hash_substitution() {
    let subs = FileSubstitutions {
        old_version: "1.0.0".to_string(),
        new_version: "2.0.0".to_string(),
        old_hash: Some("abc123".to_string()),
        new_hash: Some("def456".to_string()),
        old_tag: None,
        new_tag: None,
        old_commit: None,
        new_commit: None,
    };

    let input = "hash = abc123\n";
    let result = substitute_content(input, &subs);
    assert!(result.contains("def456"));
    assert!(!result.contains("abc123"));
}

#[test]
fn test_word_boundary_replacement() {
    let result = replace_with_boundaries("v1.0.0 and 1.0.0-beta1", "1.0.0", "2.0.0");
    assert!(result.contains("2.0.0"));
}

#[test]
fn substitution_with_same_version_changes_nothing() {
    let s = subs("1.0.0", "1.0.0");
    assert_eq!(substitute_content("a 1.0.0 b", &s), "a 1.0.0 b");
}

#[test]
fn substitution_of_absent_version_changes_nothing() {
    let s = subs("9.9.9", "1.0.0");
    assert_eq!(substitute_content("a 1.0.0 b", &s), "a 1.0.0 b");
}

#[test]
fn substitution_replaces_tag_and_commit() {
    let mut s = subs("1.0.0", "2.0.0");
    s.old_tag = Some("v1.0.0".to_string());
    s.new_tag = Some("v2.0.0".to_string());
    s.old_commit = Some("aaa".to_string());
    s.new_commit = Some("bbb".to_string());
    assert_eq!(substitute_content("tag=v1.0.0 commit=aaa", &s), "tag=v2.0.0 commit=bbb");
}

#[test]
fn skipped_and_binary_files() {
    assert!(is_skipped_file("pkg-builder.toml"));
    assert!(is_skipped_file("pkg-builder-verify.toml"));
    assert!(!is_skipped_file("rules"));
    assert!(is_binary(&[1, 2, 0, 3]));
    assert!(!is_binary(b"plain text"));
    let mut late = vec![b'a'; 600];
    late[550] = 0;
    assert!(!is_binary(&late));
}

#[test]
fn test_parse_github_repo_archive_url() {
    let url = "https://github.com/ethereum/go-ethereum/archive/refs/tags/v1.14.0.tar.gz";
    assert_eq!(parse_github_repo(url), Some("ethereum/go-ethereum".to_string()));
}

#[test]
fn test_parse_github_repo_release_url() {
    let url = "https://github.com/sigp/lighthouse/releases/download/v5.0.0/lighthouse-v5.0.0-x86_64-unknown-linux-gnu.tar.gz";
    assert_eq!(parse_github_repo(url), Some("sigp/lighthouse".to_string()));
}

#[test]
fn test_parse_github_repo_git_url() {
    let url = "https://github.com/prysmaticlabs/prysm.git";
    assert_eq!(parse_github_repo(url), Some("prysmaticlabs/prysm".to_string()));
}

#[test]
fn test_parse_github_repo_non_github() {
    let url = "https://example.com/foo/bar.tar.gz";
    assert_eq!(parse_github_repo(url), None);
}

#[test]
fn test_parse_github_repo_short() {
    let url = "https://github.com/owner/repo";
    assert_eq!(parse_github_repo(url), Some("owner/repo".to_string()));
}

#[test]
fn github_http_url_and_no_slash() {
    assert_eq!(parse_github_repo("http://github.com/a/b.git/tree"), Some("a/b".to_string()));
    assert_eq!(parse_github_repo("https://github.com/only-owner"), None);
    assert_eq!(release_version("v1.2.3"), "1.2.3");
    assert_eq!(release_version("1.2.3"), "1.2.3");
    assert_eq!(tag_ref_url("o/r", "v1"), "https://api.github.com/repos/o/r/git/ref/tags/v1");
}

#[test]
fn test_resolve_new_version_explicit() {
    let (version, tag) = resolve_new_version(&Some("1.15.0".to_string()), &None, None).unwrap();
    assert_eq!(version, "1.15.0");
    assert_eq!(tag, Some("v1.15.0".to_string()));
}

#[test]
fn test_resolve_new_version_with_v_prefix() {
    let (version, tag) = resolve_new_version(&Some("v1.15.0".to_string()), &None, None).unwrap();
    assert_eq!(version, "1.15.0");
    assert_eq!(tag, Some("v1.15.0".to_string()));
}

#[test]
fn test_resolve_new_version_no_source() {
    let result = resolve_new_version(&None, &None, None);
    assert!(result.is_err());
}

#[test]
fn resolve_new_version_needs_latest_release() {
    let result = resolve_new_version(&None, &None, Some("https://github.com/o/r/archive/v1.tar.gz"));
    match result {
        Err(UpdateError::LatestReleaseNeeded(repo)) => assert_eq!(repo, "o/r"),
        _ => panic!("expected a release lookup"),
    }
}

fn update_cfg() -> UpdateConfig {
    UpdateConfig {
        version: None,
        revision: "1".to_string(),
        changelog_msg: None,
        github_repo: None,
        in_place: false,
        output: None,
        hash: None,
        git_commit: None,
        skip_download: false,
        update_runtime: false,
        skip_patch_check: false,
    }
}

#[test]
fn new_source_plans() {
    let tarball = SourceKind::Tarball { url: "https://x/pkg-1.0.0.tar.gz".to_string(), hash: None };
    let mut cfg = update_cfg();
    match plan_new_source(&tarball, "1.0.0", "2.0.0", &None, Some("https://x/pkg-1.0.0.tar.gz"), &cfg) {
        SourceStep::DownloadTarball { url } => assert_eq!(url, "https://x/pkg-2.0.0.tar.gz"),
        _ => panic!("expected a download"),
    }
    cfg.hash = Some("h".to_string());
    match plan_new_source(&tarball, "1.0.0", "2.0.0", &None, Some("https://x/pkg-1.0.0.tar.gz"), &cfg) {
        SourceStep::Resolved { url, hash, commit } => {
            assert_eq!(url, Some("https://x/pkg-2.0.0.tar.gz".to_string()));
            assert_eq!(hash, Some("h".to_string()));
            assert_eq!(commit, None);
        }
        _ => panic!("expected a resolution"),
    }
    let git = SourceKind::Git { url: "https://github.com/o/r.git".to_string(), tag: "v1.0.0".to_string() };
    let cfg = update_cfg();
    match plan_new_source(&git, "1.0.0", "2.0.0", &None, None, &cfg) {
        SourceStep::FetchTagCommit { repo, tag } => {
            assert_eq!(repo, "o/r");
            assert_eq!(tag, "v2.0.0");
        }
        _ => panic!("expected a commit lookup"),
    }
    let mut cfg = update_cfg();
    cfg.output = Some("/out".to_string());
    assert_eq!(output_dir_choice("/pkg", &cfg, true), Some("/out".to_string()));
    let cfg = update_cfg();
    assert_eq!(output_dir_choice("/pkg", &cfg, false), Some("/pkg".to_string()));
    assert_eq!(output_dir_choice("/pkg", &cfg, true), None);
}

#[test]
fn test_patch_result_summary() {
    let result = PatchTestResult { applied_cleanly: 3, fixed_interactively: 1, skipped: 0, aborted: false };
    assert_eq!(result.summary(), "3 applied cleanly, 1 fixed interactively");

    let empty = PatchTestResult { applied_cleanly: 0, fixed_interactively: 0, skipped: 0, aborted: false };
    assert_eq!(empty.summary(), "no patches to test");
}

#[test]
fn patch_summary_with_skips_and_abort() {
    let r = PatchTestResult { applied_cleanly: 0, fixed_interactively: 0, skipped: 12, aborted: true };
    assert_eq!(r.summary(), "12 skipped, aborted");
}

#[test]
fn series_file_parsing_and_removal() {
    assert_eq!(series_patches("# empty\n"), Vec::<String>::new());
    assert_eq!(series_patches("a.diff\n\n  b.diff  \n# c\r\nd.diff"), vec!["a.diff", "b.diff", "d.diff"]);
    let content = remove_from_series("patch1.diff\npatch2.diff\npatch3.diff\n", "patch2.diff");
    assert_eq!(content, "patch1.diff\npatch3.diff\n");
}

#[test]
fn patch_session_counts_each_patch_once() {
    let patches = vec!["a".to_string(), "b".to_string(), "c".to_string()];
    let mut s = PatchSession::new(patches, true);
    assert!(matches!(s.next_action(), PatchAction::Push(ref p) if p == "a"));
    s.on_event(PatchEvent::Pushed(true));
    s.on_event(PatchEvent::Pushed(false));
    assert!(matches!(s.next_action(), PatchAction::Ask(ref p) if p == "b"));
    s.on_event(PatchEvent::Chose(2));
    assert!(matches!(s.next_action(), PatchAction::RemoveFromSeries(ref p) if p == "b"));
    s.on_event(PatchEvent::Removed);
    s.on_event(PatchEvent::Pushed(false));
    s.on_event(PatchEvent::Chose(1));
    assert!(matches!(s.next_action(), PatchAction::Shell { force: true }));
    s.on_event(PatchEvent::ShellExited(true));
    assert!(matches!(s.next_action(), PatchAction::Finish { copy_back: true }));
    assert_eq!(s.result.summary(), "1 applied cleanly, 1 fixed interactively, 1 skipped");
}

#[test]
fn patch_session_abort() {
    let mut s = PatchSession::new(vec!["a".to_string()], true);
    s.on_event(PatchEvent::Pushed(false));
    s.on_event(PatchEvent::Chose(3));
    assert!(matches!(s.next_action(), PatchAction::Finish { copy_back: false }));
    assert_eq!(s.result.summary(), "aborted");
}

#[test]
fn changelog_entry_format() {
    let entry = changelog_entry("geth", "1.15.0", "1", "bookworm", "Test User <test@example.com>", "New upstream version 1.15.0", "Mon, 01 Jan 2024 00:00:00 +0000");
    assert_eq!(entry, "geth (1.15.0-1) bookworm; urgency=medium\n\n  * New upstream version 1.15.0\n\n -- Test User <test@example.com>  Mon, 01 Jan 2024 00:00:00 +0000\n");
    let now = new_changelog_entry("geth", "1.15.0", "1", "bookworm", "Test User <test@example.com>", "New upstream version 1.15.0");
    assert!(now.starts_with("geth (1.15.0-1) bookworm; urgency=medium"));
    assert!(now.ends_with(" +0000\n"));
    assert_eq!(prepend_entry("new\n", ""), "new\n");
    assert_eq!(prepend_entry("new\n", "old\n"), "new\n\nold\n");
}

#[test]
fn maintainer_from_spec_file() {
    assert_eq!(
        maintainer_from_sss("name: test\nmaintainer: \"Test User <test@example.com>\"\n"),
        Some("Test User <test@example.com>".to_string())
    );
    assert_eq!(maintainer_from_sss("maintainer = 'A <a@b>'"), Some("A <a@b>".to_string()));
    assert_eq!(maintainer_from_sss("maintainer A\nmaintainer: B"), None);
    assert_eq!(maintainer_from_sss("maintainer: \"\"\nmaintainer: B"), Some("B".to_string()));
}

#[test]
fn test_new_changelog_entry_format() {
    let entry = new_changelog_entry(
        "geth",
        "1.15.0",
        "1",
        "bookworm",
        "Test User <test@example.com>",
        "New upstream version 1.15.0",
    );

    assert!(entry.starts_with("geth (1.15.0-1) bookworm; urgency=medium"));
    assert!(entry.contains("* New upstream version 1.15.0"));
    assert!(entry.contains("-- Test User <test@example.com>"));
}

#[test]
fn test_rewrite_version_and_hash() {
    let content = r#"# Package config
[package]
name = "geth"
version = "1.14.0"
revision = "1"
homepage = "https://geth.ethereum.org"
spec = "geth.sss"

[source]
type = "tarball"
url = "https://github.com/ethereum/go-ethereum/archive/refs/tags/v1.14.0.tar.gz"
hash = "oldsha256"

[build]
distribution = "bookworm"
arch = "amd64"
"#;
    let updates = TomlUpdates {
        version: Some("1.15.0".to_string()),
        revision: Some("1".to_string()),
        source_url: Some("https://github.com/ethereum/go-ethereum/archive/refs/tags/v1.15.0.tar.gz".to_string()),
        source_hash: Some("newsha256".to_string()),
        source_tag: None,
        runtime_vars: None,
    };
    let result = rewrite_toml(content, &updates).unwrap().unwrap();
    assert!(result.contains("# Package config"), "comments preserved");
    assert!(result.contains("version = \"1.15.0\""));
    assert!(result.contains("hash = \"newsha256\""));
    assert!(result.contains("v1.15.0.tar.gz"));
}

#[test]
fn test_rewrite_git_tag() {
    let content = r#"[package]
name = "prysm"
version = "5.0.0"
revision = "1"
homepage = "https://example.com"
spec = "prysm.sss"

[source]
type = "git"
url = "https://github.com/prysmaticlabs/prysm.git"
tag = "v5.0.0"
"#;
    let updates = TomlUpdates {
        version: Some("5.1.0".to_string()),
        revision: Some("1".to_string()),
        source_url: None,
        source_hash: None,
        source_tag: Some("v5.1.0".to_string()),
        runtime_vars: None,
    };
    let result = rewrite_toml(content, &updates).unwrap().unwrap();
    assert!(result.contains("version = \"5.1.0\""));
    assert!(result.contains("tag = \"v5.1.0\""));
}

#[test]
fn test_rewrite_runtime_vars() {
    let content = r#"[package]
name = "test"
version = "1.0.0"
revision = "1"
homepage = "https://example.com"
spec = "test.sss"

[source]
type = "virtual"

[runtime]
recipe = "go"
binary_url = "https://go.dev/dl/go1.22.2.linux-amd64.tar.gz"
binary_checksum = "oldchecksum"
"#;
    let updates = TomlUpdates {
        version: None,
        revision: None,
        source_url: None,
        source_hash: None,
        source_tag: None,
        runtime_vars: Some(vec![
            ("binary_url".to_string(), "https://go.dev/dl/go1.23.0.linux-amd64.tar.gz".to_string()),
            ("binary_checksum".to_string(), "newchecksum".to_string()),
        ]),
    };
    let result = rewrite_toml(content, &updates).unwrap().unwrap();
    assert!(result.contains("go1.23.0"));
    assert!(result.contains("newchecksum"));
}

#[test]
fn rewrite_toml_errors_and_refusals() {
    let none = TomlUpdates {
        version: Some("2".to_string()),
        revision: None,
        source_url: None,
        source_hash: None,
        source_tag: None,
        runtime_vars: None,
    };
    assert!(rewrite_toml("[package\n", &none).is_err());
    assert_eq!(rewrite_toml("package = \"x\"\n", &none), Ok(None));
    let created = rewrite_toml("", &none).unwrap().unwrap();
    assert!(created.contains("version = \"2\""));
    let no_runtime = TomlUpdates {
        version: None,
        revision: None,
        source_url: None,
        source_hash: None,
        source_tag: None,
        runtime_vars: Some(vec![("k".to_string(), "v".to_string())]),
    };
    assert_eq!(rewrite_toml("[package]\nname = \"a\"\n", &no_runtime), Ok(Some("[package]\nname = \"a\"\n".to_string())));
    assert_eq!(rewrite_toml("runtime = 1\n", &no_runtime), Ok(None));
}

#[test]
fn patch_session_without_patches_copies_nothing() {
    let s = PatchSession::new(Vec::new(), true);
    assert!(matches!(s.next_action(), PatchAction::Finish { copy_back: false }));
    assert_eq!(s.result.summary(), "no patches to test");
}
