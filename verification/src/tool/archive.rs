//! Source archives: the arguments of the downloads, git checkouts and tar
//! runs that produce and unpack them.
use vstd::prelude::*;
use crate::text::{self, push_str};
use crate::v1::build::dir_setup;

verus! {

/// The arguments of a quiet wget download of `url` to `output`.
pub fn wget_args(url: &str, output: &str) -> (r: Vec<String>)
    ensures
        text::views(r@) == seq!["-q"@, "-O"@, output@, url@],
{
    let mut a: Vec<String> = Vec::new();
    push_str(&mut a, "-q");
    push_str(&mut a, "-O");
    push_str(&mut a, output);
    push_str(&mut a, url);
    assert(text::views(a@) =~= seq!["-q"@, "-O"@, output@, url@]);
    a
}

/// How many leading directories to strip when unpacking a tarball whose
/// `tar --list` output is `listing`.
pub fn detect_strip_components(listing: &str) -> (r: usize)
    ensures
        r == dir_setup::strip_spec(listing@),
{
    dir_setup::components_to_strip(listing)
}

/// The longest common prefix of the entries of a tarball listing.
pub fn longest_common_prefix(strings: &[&str]) -> (r: String)
    ensures
        r@ == dir_setup::lcp_spec(dir_setup::str_views(strings@)),
{
    dir_setup::longest_common_prefix(strings)
}

/// The arguments of the tar run that unpacks `tarball` into `dest`,
/// stripping `strip` leading directories when there are any.
pub fn extract_tar_args(tarball: &str, dest: &str, strip: usize) -> (r: Vec<String>)
    ensures
        text::views(r@) == seq!["zxvf"@, tarball@, "-C"@, dest@]
            + if strip > 0 { seq!["--strip-components="@ + text::decimal_spec(strip as nat)] } else { seq![] },
{
    dir_setup::extract_args(tarball, dest, strip)
}

/// The reproducible tar options: sorted names, root ownership, and no
/// access or change times in the headers.
pub open spec fn reproducible_tar_opts() -> Seq<Seq<char>> {
    seq![
        "--sort=name"@,
        "--owner=0"@,
        "--group=0"@,
        "--numeric-owner"@,
    ]
}

fn push_reproducible(a: &mut Vec<String>)
    ensures
        text::views(final(a)@) == text::views(old(a)@) + reproducible_tar_opts(),
{
    push_str(a, "--sort=name");
    push_str(a, "--owner=0");
    push_str(a, "--group=0");
    push_str(a, "--numeric-owner");
    assert(text::views(a@) =~= text::views(old(a)@) + reproducible_tar_opts());
}

/// The arguments of the tar run that makes an empty, reproducible tarball
/// for a virtual package.
pub fn empty_tar_args(tarball: &str) -> (r: Vec<String>)
    ensures
        text::views(r@) == reproducible_tar_opts() + seq![
            "--mtime=2022-01-01 00:00:00"@,
            "--pax-option=exthdr.name=%d/PaxHeaders/%f,delete=atime,delete=ctime"@,
            "-czf"@,
            tarball@,
            "--files-from"@,
            "/dev/null"@,
        ],
{
    let mut a: Vec<String> = Vec::new();
    push_reproducible(&mut a);
    push_str(&mut a, "--mtime=2022-01-01 00:00:00");
    push_str(&mut a, "--pax-option=exthdr.name=%d/PaxHeaders/%f,delete=atime,delete=ctime");
    push_str(&mut a, "-czf");
    push_str(&mut a, tarball);
    push_str(&mut a, "--files-from");
    push_str(&mut a, "/dev/null");
    assert(text::views(a@) =~= reproducible_tar_opts() + seq![
            "--mtime=2022-01-01 00:00:00"@,
            "--pax-option=exthdr.name=%d/PaxHeaders/%f,delete=atime,delete=ctime"@,
            "-czf"@,
            tarball@,
            "--files-from"@,
            "/dev/null"@,
        ]);
    a
}

/// The arguments of the tar run that archives a git checkout reproducibly.
pub fn archive_tar_args(tarball: &str, package_name: &str) -> (r: Vec<String>)
    ensures
        text::views(r@) == reproducible_tar_opts() + seq![
            "--pax-option=exthdr.name=%d/PaxHeaders/%f,delete=atime,delete=ctime"@,
            "-czf"@,
            tarball@,
            package_name@,
        ],
{
    let mut a: Vec<String> = Vec::new();
    push_reproducible(&mut a);
    push_str(&mut a, "--pax-option=exthdr.name=%d/PaxHeaders/%f,delete=atime,delete=ctime");
    push_str(&mut a, "-czf");
    push_str(&mut a, tarball);
    push_str(&mut a, package_name);
    assert(text::views(a@) =~= reproducible_tar_opts() + seq![
            "--pax-option=exthdr.name=%d/PaxHeaders/%f,delete=atime,delete=ctime"@,
            "-czf"@,
            tarball@,
            package_name@,
        ]);
    a
}

/// The arguments of a shallow git clone of one tag.
pub fn git_clone_args(url: &str, tag: &str, path: &str) -> (r: Vec<String>)
    ensures
        text::views(r@) == seq!["clone"@, "--depth=1"@, "--branch"@, tag@, url@, path@],
{
    let mut a: Vec<String> = Vec::new();
    push_str(&mut a, "clone");
    push_str(&mut a, "--depth=1");
    push_str(&mut a, "--branch");
    push_str(&mut a, tag);
    push_str(&mut a, url);
    push_str(&mut a, path);
    assert(text::views(a@) =~= seq!["clone"@, "--depth=1"@, "--branch"@, tag@, url@, path@]);
    a
}

/// The message of a failed tag checkout.
pub fn checkout_failure(tag: &str, stderr: &str) -> (r: String)
    ensures
        r@ == "Failed to checkout tag "@ + tag@ + ": "@ + stderr@,
{
    text::cat4("Failed to checkout tag ", tag, ": ", stderr)
}

/// The message of a failed submodule commit step.
pub fn submodule_failure(step: &str, commit: &str, path: &str, stderr: &str) -> (r: String)
    ensures
        r@ == "Failed to "@ + step@ + " commit "@ + commit@ + " for submodule "@ + path@ + ": "@ + stderr@,
{
    let a = text::cat5("Failed to ", step, " commit ", commit, " for submodule ");
    text::cat4(a.as_str(), path, ": ", stderr)
}

/// The time stamp a git checkout's files get before archiving, for
/// reproducible tarballs: 2022-01-01 00:00:00 UTC.
pub fn reproducible_timestamp() -> (r: i64)
    ensures
        r == 1640995200,
{
    1640995200
}

} // verus!
