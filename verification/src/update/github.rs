//! GitHub repositories: recognising them in source URLs and the API
//! endpoints that give their latest release and a tag's commit.
use vstd::prelude::*;
use crate::text::{self, cat, cat3, cat4, split_once_char, strip_prefix, strip_suffix};

verus! {

/// The part of a GitHub URL after the host, for https and http URLs.
pub open spec fn github_path(url: Seq<char>) -> Option<Seq<char>> {
    if text::starts_with_spec(url, "https://github.com/"@) {
        Some(url.skip("https://github.com/"@.len() as int))
    } else if text::starts_with_spec(url, "http://github.com/"@) {
        Some(url.skip("http://github.com/"@.len() as int))
    } else {
        None
    }
}

/// A repository name without a trailing `.git`.
pub open spec fn without_git_suffix(repo: Seq<char>) -> Seq<char> {
    if text::ends_with_spec(repo, ".git"@) { repo.take(repo.len() - ".git"@.len()) } else { repo }
}

/// The `owner/repo` of a GitHub URL: the first two path segments, with
/// `.git` dropped from the repository; `None` for other hosts or when the
/// path has no `/`.
pub open spec fn github_repo_spec(url: Seq<char>) -> Option<Seq<char>> {
    match github_path(url) {
        None => None,
        Some(path) => match text::split_first(path, '/') {
            None => None,
            Some((owner, after)) => {
                let repo = match text::split_first(after, '/') {
                    Some((r, _)) => r,
                    None => after,
                };
                Some(owner + "/"@ + without_git_suffix(repo))
            },
        },
    }
}

/// Any GitHub URL of a repository, over https or http, gives its
/// `owner/repo` without `.git`: the repository's own URL, its `.git` clone
/// URL, or anything under it such as an archive or a release download.
pub proof fn lemma_github_repo_of_url(https: bool, owner: Seq<char>, repo: Seq<char>, rest: Seq<char>)
    requires
        !owner.contains('/'),
        !repo.contains('/'),
        rest.len() == 0 || rest[0] == '/',
    ensures
        github_repo_spec(
            (if https { "https://github.com/"@ } else { "http://github.com/"@ }) + owner + "/"@ + repo + rest,
        ) == Some(owner + "/"@ + without_git_suffix(repo)),
{
    reveal_strlit("https://github.com/");
    reveal_strlit("http://github.com/");
    reveal_strlit("/");
    let host = if https { "https://github.com/"@ } else { "http://github.com/"@ };
    let path = owner + "/"@ + repo + rest;
    let url = host + owner + "/"@ + repo + rest;
    assert(url =~= host + path);
    assert(url.take(host.len() as int) =~= host);
    assert(url.skip(host.len() as int) =~= path);
    if !https {
        assert(url[4] == ':');
        assert("https://github.com/"@[4] == 's');
        assert(!text::starts_with_spec(url, "https://github.com/"@)) by {
            if text::starts_with_spec(url, "https://github.com/"@) {
                assert(url.take(19)[4] == url[4]);
            }
        }
    }
    assert(github_path(url) == Some(path));
    assert forall|j: int| 0 <= j < owner.len() implies path[j] != '/' by {
        assert(path[j] == owner[j]);
    }
    assert(path[owner.len() as int] == '/');
    text::lemma_split_first_at(path, '/', owner.len() as int);
    assert(path.take(owner.len() as int) =~= owner);
    let after = repo + rest;
    assert(path.skip(owner.len() as int + 1) =~= after);
    if rest.len() == 0 {
        assert(after =~= repo);
        text::lemma_split_first_none(after, '/');
    } else {
        assert forall|j: int| 0 <= j < repo.len() implies after[j] != '/' by {
            assert(after[j] == repo[j]);
        }
        text::lemma_split_first_at(after, '/', repo.len() as int);
        assert(after.take(repo.len() as int) =~= repo);
    }
}

/// The `owner/repo` a GitHub source URL names, such as
/// `ethereum/go-ethereum` for an archive, release or `.git` URL of that
/// repository; `None` for any other URL.
pub fn parse_github_repo(url: &str) -> (r: Option<String>)
    ensures
        match r {
            Some(s) => github_repo_spec(url@) == Some(s@),
            None => github_repo_spec(url@) is None,
        },
{
    let path = match strip_prefix(url, "https://github.com/") {
        Some(p) => p,
        None => match strip_prefix(url, "http://github.com/") {
            Some(p) => p,
            None => {
                return None;
            },
        },
    };
    let (owner, after) = match split_once_char(path.as_str(), '/') {
        Some(pair) => pair,
        None => {
            return None;
        },
    };
    let repo = match split_once_char(after.as_str(), '/') {
        Some((r, _)) => r,
        None => after,
    };
    let name = match strip_suffix(repo.as_str(), ".git") {
        Some(n) => n,
        None => repo,
    };
    Some(cat3(owner.as_str(), "/", name.as_str()))
}

/// The API endpoint of a repository's latest release.
pub fn latest_release_url(owner_repo: &str) -> (r: String)
    ensures
        r@ == "https://api.github.com/repos/"@ + owner_repo@ + "/releases/latest"@,
{
    cat3("https://api.github.com/repos/", owner_repo, "/releases/latest")
}

/// The API endpoint of a tag's reference.
pub fn tag_ref_url(owner_repo: &str, tag: &str) -> (r: String)
    ensures
        r@ == "https://api.github.com/repos/"@ + owner_repo@ + "/git/ref/tags/"@ + tag@,
{
    cat4("https://api.github.com/repos/", owner_repo, "/git/ref/tags/", tag)
}

/// The API endpoint of an annotated tag object.
pub fn annotated_tag_url(owner_repo: &str, sha: &str) -> (r: String)
    ensures
        r@ == "https://api.github.com/repos/"@ + owner_repo@ + "/git/tags/"@ + sha@,
{
    cat4("https://api.github.com/repos/", owner_repo, "/git/tags/", sha)
}

/// A version without one leading `v`.
pub open spec fn version_of_tag(tag: Seq<char>) -> Seq<char> {
    if text::starts_with_spec(tag, "v"@) { tag.skip(1) } else { tag }
}

/// The version a release tag names: the tag without its leading `v`.
pub fn release_version(tag_name: &str) -> (r: String)
    ensures
        r@ == version_of_tag(tag_name@),
{
    proof {
        reveal_strlit("v");
    }
    match strip_prefix(tag_name, "v") {
        Some(v) => v,
        None => text::owned(tag_name),
    }
}

/// The authorization header value for a GitHub token.
pub fn bearer(token: &str) -> (r: String)
    ensures
        r@ == "Bearer "@ + token@,
{
    cat("Bearer ", token)
}

} // verus!
