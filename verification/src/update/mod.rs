//! Updating a package to a new upstream version: choosing the version and
//! source, and what is rewritten in the package directory.
use vstd::prelude::*;
use crate::text::{self, cat, owned, replace_all, starts_with, strip_prefix};

pub mod changelog;
pub mod files;
pub mod github;
pub mod patches;
pub mod toml_rewrite;

use crate::update::files::FileSubstitutions;
use crate::update::github::parse_github_repo;
use crate::update::toml_rewrite::TomlUpdates;

verus! {

/// Why an update failed, or what it still needs from outside.
#[derive(Debug)]
pub enum UpdateError {
    /// The package configuration could not be read.
    Config(String),
    /// Any other failure, with its message.
    Other(String),
    /// Reading or writing a file failed.
    Io(std::io::Error),
    /// The new version is the latest release of this GitHub repository,
    /// which has to be looked up.
    LatestReleaseNeeded(String),
}

/// The options of the update command.
pub struct UpdateConfig {
    pub version: Option<String>,
    pub revision: String,
    pub changelog_msg: Option<String>,
    pub github_repo: Option<String>,
    pub in_place: bool,
    pub output: Option<String>,
    pub hash: Option<String>,
    pub git_commit: Option<String>,
    pub skip_download: bool,
    pub update_runtime: bool,
    pub skip_patch_check: bool,
}

/// What an update changed.
pub struct UpdateSummary {
    pub old_version: String,
    pub new_version: String,
    pub new_revision: String,
    pub source_hash: Option<String>,
    pub git_commit: Option<String>,
    pub runtime_updated: bool,
    pub files_modified: Vec<String>,
    pub patch_summary: Option<String>,
    pub output_dir: String,
}

/// Where a package's upstream source comes from.
pub enum SourceKind {
    Tarball { url: String, hash: Option<String> },
    Git { url: String, tag: String },
    Virtual,
}

/// The view of an optional string.
pub open spec fn opt_view(o: Option<String>) -> Option<Seq<char>> {
    match o {
        Some(s) => Some(s@),
        None => None,
    }
}

/// The view of an optional string slice.
pub open spec fn opt_str_view(o: Option<&str>) -> Option<Seq<char>> {
    match o {
        Some(s) => Some(s@),
        None => None,
    }
}

/// The repository whose latest release gives the new version: the one
/// given, else the one the source URL names.
pub open spec fn release_repo(repo_flag: Option<Seq<char>>, source_url: Option<Seq<char>>) -> Option<Seq<char>> {
    match repo_flag {
        Some(r) => Some(r),
        None => match source_url {
            Some(u) => github::github_repo_spec(u),
            None => None,
        },
    }
}

/// The message when no version is given and no repository is known.
pub open spec fn no_repo_message() -> Seq<char> {
    "Cannot determine GitHub repo. Use --version or --github-repo."@
}

/// An explicit version's tag: the version itself when it starts with `v`,
/// else the version with `v` in front.
pub open spec fn tag_of_version(v: Seq<char>) -> Seq<char> {
    if text::starts_with_spec(v, "v"@) { v } else { "v"@ + v }
}

/// The new version and its tag. An explicit version is used without its
/// leading `v`, its tag with one. Without one, the version is the latest
/// release of the given repository or of the one the source URL names:
/// that lookup is reported as `LatestReleaseNeeded` with the repository,
/// and with no repository at all the update fails with `Other`.
pub fn resolve_new_version(
    version_flag: &Option<String>,
    github_repo_flag: &Option<String>,
    source_url: Option<&str>,
) -> (r: Result<(String, Option<String>), UpdateError>)
    ensures
        match *version_flag {
            Some(v) => r matches Ok((ver, tag)) && ver@ == github::version_of_tag(v@)
                && (tag matches Some(t) && t@ == tag_of_version(v@)),
            None => match release_repo(opt_view(*github_repo_flag), opt_str_view(source_url)) {
                Some(repo) => r matches Err(UpdateError::LatestReleaseNeeded(x)) && x@ == repo,
                None => r matches Err(UpdateError::Other(m)) && m@ == no_repo_message(),
            },
        },
{
    match version_flag {
        Some(version) => {
            proof {
                reveal_strlit("v");
            }
            let tag = if starts_with(version.as_str(), "v") {
                version.clone()
            } else {
                cat("v", version.as_str())
            };
            let clean = match strip_prefix(version.as_str(), "v") {
                Some(v) => v,
                None => owned(version.as_str()),
            };
            Ok((clean, Some(tag)))
        },
        None => {
            let repo = match github_repo_flag {
                Some(r) => Some(r.clone()),
                None => match source_url {
                    Some(u) => parse_github_repo(u),
                    None => None,
                },
            };
            match repo {
                Some(r) => Err(UpdateError::LatestReleaseNeeded(r)),
                None => Err(UpdateError::Other(owned("Cannot determine GitHub repo. Use --version or --github-repo."))),
            }
        },
    }
}

/// The new version from a looked-up latest release: its version, and its
/// tag as the new tag.
pub fn version_from_release(tag_name: String, version: String) -> (r: (String, Option<String>))
    ensures
        r.0 == version,
        r.1 == Some(tag_name),
{
    (version, Some(tag_name))
}

/// The source URL, hash and tag a package had before the update.
pub open spec fn old_source_spec(s: SourceKind) -> (Option<Seq<char>>, Option<Seq<char>>, Option<Seq<char>>) {
    match s {
        SourceKind::Tarball { url, hash } => (Some(url@), opt_view(hash), None),
        SourceKind::Git { url, tag } => (Some(url@), None, Some(tag@)),
        SourceKind::Virtual => (None, None, None),
    }
}

/// The current source URL, hash and tag of a package.
pub fn old_source(source: &SourceKind) -> (r: (Option<String>, Option<String>, Option<String>))
    ensures
        (opt_view(r.0), opt_view(r.1), opt_view(r.2)) == old_source_spec(*source),
{
    match source {
        SourceKind::Tarball { url, hash } => (Some(url.clone()), match hash {
            Some(h) => Some(h.clone()),
            None => None,
        }, None),
        SourceKind::Git { url, tag } => (Some(url.clone()), None, Some(tag.clone())),
        SourceKind::Virtual => (None, None, None),
    }
}

/// The next step in resolving the new source: a finished resolution (new
/// URL, hash and commit), or a download or lookup whose outcome completes it.
pub enum SourceStep {
    Resolved { url: Option<String>, hash: Option<String>, commit: Option<String> },
    /// Download the new tarball and hash it.
    DownloadTarball { url: String },
    /// Look up the commit a tag of a GitHub repository points to.
    FetchTagCommit { repo: String, tag: String },
}

/// The repository whose tag gives a git source's commit.
pub open spec fn commit_repo(repo_flag: Option<Seq<char>>, url: Seq<char>) -> Option<Seq<char>> {
    match repo_flag {
        Some(r) => Some(r),
        None => github::github_repo_spec(url),
    }
}

/// How the new source is resolved. A given hash wins: the old URL with the
/// old version replaced by the new one, that hash, and the given commit. A
/// given commit comes next, alone. A tarball gets the URL with the version
/// replaced, downloaded and hashed unless downloads are skipped. A git
/// source's commit is looked up from the new tag (the one given, else `v`
/// and the version) on its GitHub repository, unless downloads are skipped
/// or no repository is known. A virtual package has no source.
pub fn plan_new_source(
    source: &SourceKind,
    old_version: &str,
    new_version: &str,
    new_tag: &Option<String>,
    old_source_url: Option<&str>,
    update_cfg: &UpdateConfig,
) -> (r: SourceStep)
    ensures
        match update_cfg.hash {
            Some(h) => r matches SourceStep::Resolved { url, hash, commit }
                && opt_view(url) == (match old_source_url {
                    Some(u) => Some(text::replace_spec(u@, old_version@, new_version@)),
                    None => None,
                })
                && opt_view(hash) == Some(h@) && opt_view(commit) == opt_view(update_cfg.git_commit),
            None => match update_cfg.git_commit {
                Some(c) => r matches SourceStep::Resolved { url, hash, commit }
                    && url is None && hash is None && opt_view(commit) == Some(c@),
                None => match *source {
                    SourceKind::Tarball { url, .. } => if update_cfg.skip_download {
                        r matches SourceStep::Resolved { url: u, hash, commit }
                            && opt_view(u) == Some(text::replace_spec(url@, old_version@, new_version@))
                            && hash is None && commit is None
                    } else {
                        r matches SourceStep::DownloadTarball { url: u }
                            && u@ == text::replace_spec(url@, old_version@, new_version@)
                    },
                    SourceKind::Git { url, .. } => {
                        let tag = match *new_tag {
                            Some(t) => t@,
                            None => "v"@ + new_version@,
                        };
                        if !update_cfg.skip_download && commit_repo(opt_view(update_cfg.github_repo), url@) is Some {
                            r matches SourceStep::FetchTagCommit { repo, tag: t }
                                && repo@ == commit_repo(opt_view(update_cfg.github_repo), url@).unwrap() && t@ == tag
                        } else {
                            r matches SourceStep::Resolved { url, hash, commit } && url is None && hash is None && commit is None
                        }
                    },
                    SourceKind::Virtual => r matches SourceStep::Resolved { url, hash, commit }
                        && url is None && hash is None && commit is None,
                },
            },
        },
{
    match &update_cfg.hash {
        Some(h) => {
            let url = match old_source_url {
                Some(u) => Some(replace_all(u, old_version, new_version)),
                None => None,
            };
            let commit = match &update_cfg.git_commit {
                Some(c) => Some(c.clone()),
                None => None,
            };
            return SourceStep::Resolved { url, hash: Some(h.clone()), commit };
        },
        None => {},
    }
    match &update_cfg.git_commit {
        Some(c) => {
            return SourceStep::Resolved { url: None, hash: None, commit: Some(c.clone()) };
        },
        None => {},
    }
    match source {
        SourceKind::Tarball { url, .. } => {
            let new_url = replace_all(url.as_str(), old_version, new_version);
            if update_cfg.skip_download {
                SourceStep::Resolved { url: Some(new_url), hash: None, commit: None }
            } else {
                SourceStep::DownloadTarball { url: new_url }
            }
        },
        SourceKind::Git { url, .. } => {
            let tag = match new_tag {
                Some(t) => t.clone(),
                None => cat("v", new_version),
            };
            if update_cfg.skip_download {
                return SourceStep::Resolved { url: None, hash: None, commit: None };
            }
            let repo = match &update_cfg.github_repo {
                Some(r) => Some(r.clone()),
                None => parse_github_repo(url.as_str()),
            };
            match repo {
                Some(r) => SourceStep::FetchTagCommit { repo: r, tag },
                None => SourceStep::Resolved { url: None, hash: None, commit: None },
            }
        },
        SourceKind::Virtual => SourceStep::Resolved { url: None, hash: None, commit: None },
    }
}

/// Where the updated package is written: the output directory when one is
/// given, the package's own directory when updating in place or when no
/// one can be asked; `None` when the user has to be asked.
pub fn output_dir_choice(config_root: &str, update_cfg: &UpdateConfig, interactive: bool) -> (r: Option<String>)
    ensures
        match update_cfg.output {
            Some(o) => r matches Some(d) && d@ == o@,
            None => if update_cfg.in_place || !interactive {
                r matches Some(d) && d@ == config_root@
            } else {
                r is None
            },
        },
{
    match &update_cfg.output {
        Some(o) => Some(o.clone()),
        None => {
            if update_cfg.in_place || !interactive {
                Some(owned(config_root))
            } else {
                None
            }
        },
    }
}

/// The changelog message: the one given, else `New upstream version <v>`.
pub fn changelog_message(update_cfg: &UpdateConfig, new_version: &str) -> (r: String)
    ensures
        r@ == match update_cfg.changelog_msg {
            Some(m) => m@,
            None => "New upstream version "@ + new_version@,
        },
{
    match &update_cfg.changelog_msg {
        Some(m) => m.clone(),
        None => cat("New upstream version ", new_version),
    }
}

/// Patches are tested against the new source only when that source is
/// downloaded: not when patch checks or downloads are skipped, nor when the
/// hash was given.
pub fn should_test_patches(update_cfg: &UpdateConfig) -> (r: bool)
    ensures
        r == (!update_cfg.skip_patch_check && !update_cfg.skip_download && update_cfg.hash is None),
{
    !update_cfg.skip_patch_check && !update_cfg.skip_download && update_cfg.hash.is_none()
}

fn clone_opt(o: &Option<String>) -> (r: Option<String>)
    ensures
        opt_view(r) == opt_view(*o),
{
    match o {
        Some(s) => Some(s.clone()),
        None => None,
    }
}

/// The fields rewritten in `pkg-builder.toml`: the new version, revision,
/// source URL, hash and tag, and the runtime variables when they changed.
pub fn toml_updates(
    update_cfg: &UpdateConfig,
    new_version: &str,
    new_url: &Option<String>,
    new_hash: &Option<String>,
    new_tag: &Option<String>,
    runtime_vars: Option<Vec<(String, String)>>,
) -> (r: TomlUpdates)
    ensures
        opt_view(r.version) == Some(new_version@),
        opt_view(r.revision) == Some(update_cfg.revision@),
        opt_view(r.source_url) == opt_view(*new_url),
        opt_view(r.source_hash) == opt_view(*new_hash),
        opt_view(r.source_tag) == opt_view(*new_tag),
        r.runtime_vars == runtime_vars,
{
    TomlUpdates {
        version: Some(owned(new_version)),
        revision: Some(update_cfg.revision.clone()),
        source_url: clone_opt(new_url),
        source_hash: clone_opt(new_hash),
        source_tag: clone_opt(new_tag),
        runtime_vars,
    }
}

/// The substitutions applied to the package's files: old to new version,
/// hash, tag and commit (there is no old commit to replace).
pub fn file_substitutions(
    old_version: &str,
    new_version: &str,
    old_hash: &Option<String>,
    new_hash: &Option<String>,
    old_tag: &Option<String>,
    new_tag: &Option<String>,
    new_commit: &Option<String>,
) -> (r: FileSubstitutions)
    ensures
        r.old_version@ == old_version@,
        r.new_version@ == new_version@,
        opt_view(r.old_hash) == opt_view(*old_hash),
        opt_view(r.new_hash) == opt_view(*new_hash),
        opt_view(r.old_tag) == opt_view(*old_tag),
        opt_view(r.new_tag) == opt_view(*new_tag),
        r.old_commit is None,
        opt_view(r.new_commit) == opt_view(*new_commit),
{
    FileSubstitutions {
        old_version: owned(old_version),
        new_version: owned(new_version),
        old_hash: clone_opt(old_hash),
        new_hash: clone_opt(new_hash),
        old_tag: clone_opt(old_tag),
        new_tag: clone_opt(new_tag),
        old_commit: None,
        new_commit: clone_opt(new_commit),
    }
}

/// An explicit version's tag is always `v` followed by the version that is
/// recorded, whether or not the version was given with its `v`.
pub proof fn lemma_explicit_version_tag(v: Seq<char>)
    ensures
        tag_of_version(v) == "v"@ + github::version_of_tag(v),
{
    reveal_strlit("v");
    if text::starts_with_spec(v, "v"@) {
        assert(v.take(1) =~= "v"@);
        assert("v"@ + v.skip(1) =~= v);
    }
}

} // verus!
