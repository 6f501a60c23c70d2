//! autopkgtest: running a package's tests in a QEMU image.
use vstd::prelude::*;
use crate::config::{self, Architecture, Distribution};
use crate::paths::{self, path_join, tilde};
use crate::text::{self, cat, cat3, push_prefixed, push_str, push_string};

verus! {

/// An autopkgtest run of the packages described by a `.changes` file.
pub struct Autopkgtest<'a> {
    pub changes_file: &'a str,
    pub image_path: &'a str,
    pub deb_dir: &'a str,
    pub setup_commands: &'a [String],
}

/// The arguments of an autopkgtest run.
pub open spec fn autopkgtest_args(changes_file: Seq<char>, image_path: Seq<char>, setup_commands: Seq<Seq<char>>) -> Seq<Seq<char>> {
    seq![changes_file, "--no-built-binaries"@, "--apt-upgrade"@]
        + text::prefixed("--setup-commands="@, setup_commands)
        + seq!["--"@, "qemu"@, image_path]
}

impl Autopkgtest<'_> {
    /// The arguments autopkgtest is run with: the changes file, no rebuild,
    /// an apt upgrade, one `--setup-commands=` per setup command, then the
    /// QEMU image.
    pub fn build_args(&self) -> (r: Vec<String>)
        ensures
            text::views(r@) == autopkgtest_args(self.changes_file@, self.image_path@, text::views(self.setup_commands@)),
    {
        let mut args: Vec<String> = Vec::new();
        push_str(&mut args, self.changes_file);
        push_str(&mut args, "--no-built-binaries");
        push_str(&mut args, "--apt-upgrade");
        push_prefixed(&mut args, "--setup-commands=", self.setup_commands);
        push_str(&mut args, "--");
        push_str(&mut args, "qemu");
        push_str(&mut args, self.image_path);
        assert(text::views(args@) =~= autopkgtest_args(self.changes_file@, self.image_path@, text::views(self.setup_commands@)));
        args
    }
}

/// The file name of the QEMU image for a distribution and architecture.
pub open spec fn image_name_spec(d: Distribution, a: Architecture) -> Seq<char> {
    "autopkgtest-"@ + config::short_name(d) + "-"@ + config::arch_name(a) + ".img"@
}

/// The file name of the autopkgtest image, `autopkgtest-<release>-<arch>.img`.
pub fn autopkgtest_image_name(distribution: &Distribution, arch: &Architecture) -> (r: String)
    ensures
        r@ == image_name_spec(*distribution, *arch),
{
    let r = cat(cat3("autopkgtest-", distribution.as_short(), "-").as_str(), cat(arch.as_str(), ".img").as_str());
    assert(r@ =~= image_name_spec(*distribution, *arch));
    r
}

/// Where the autopkgtest image lives: the image name under the cache
/// directory, after the cache directory's leading `~` is expanded.
pub fn autopkgtest_image_path(cache_dir: &str, distribution: &Distribution, arch: &Architecture) -> (r: String)
    ensures
        exists|dir: Seq<char>| paths::tilde_expanded(cache_dir@, dir) && r@ == paths::join_spec(dir, image_name_spec(*distribution, *arch)),
{
    let dir = tilde(cache_dir);
    let name = autopkgtest_image_name(distribution, arch);
    path_join(dir.as_str(), name.as_str())
}

/// The program that builds the image: `autopkgtest-build-qemu` on Debian,
/// `autopkgtest-buildvm-ubuntu-cloud` on Ubuntu.
pub fn autopkgtest_image_command(distribution: &Distribution) -> (r: &'static str)
    ensures
        r@ == (match *distribution {
            Distribution::Debian(_) => "autopkgtest-build-qemu"@,
            Distribution::Ubuntu(_) => "autopkgtest-buildvm-ubuntu-cloud"@,
        }),
{
    match distribution {
        Distribution::Debian(_) => "autopkgtest-build-qemu",
        Distribution::Ubuntu(_) => "autopkgtest-buildvm-ubuntu-cloud",
    }
}

/// The arguments of the image-building program.
pub open spec fn image_build_args(d: Distribution, a: Architecture, repo_url: Seq<char>, image_path: Seq<char>) -> Seq<Seq<char>> {
    match d {
        Distribution::Debian(_) => seq![
            config::short_name(d),
            "--mirror="@ + repo_url,
            "--arch="@ + config::arch_name(a),
            image_path,
        ],
        Distribution::Ubuntu(_) => seq![
            "--release="@ + config::short_name(d),
            "--mirror="@ + repo_url,
            "--arch="@ + config::arch_name(a),
            "-v"@,
            "--timeout=3600"@,
            "--ram-size=2048"@,
        ],
    }
}

/// The arguments that build the autopkgtest image for a distribution: on
/// Debian the release, mirror, architecture and image path; on Ubuntu the
/// release, mirror and architecture, verbose, with a one-hour timeout and
/// 2048 MB of memory (the image lands in the working directory).
pub fn autopkgtest_image_args(distribution: &Distribution, arch: &Architecture, repo_url: &str, image_path: &str) -> (r: Vec<String>)
    ensures
        text::views(r@) == image_build_args(*distribution, *arch, repo_url@, image_path@),
{
    let mut args: Vec<String> = Vec::new();
    match distribution {
        Distribution::Debian(_) => {
            push_str(&mut args, distribution.as_short());
        },
        Distribution::Ubuntu(_) => {
            push_string(&mut args, cat("--release=", distribution.as_short()));
        },
    }
    push_string(&mut args, cat("--mirror=", repo_url));
    push_string(&mut args, cat("--arch=", arch.as_str()));
    match distribution {
        Distribution::Ubuntu(_) => {
            push_str(&mut args, "-v");
            push_str(&mut args, "--timeout=3600");
            push_str(&mut args, "--ram-size=2048");
        },
        Distribution::Debian(_) => {
            push_str(&mut args, image_path);
        },
    }
    assert(text::views(args@) =~= image_build_args(*distribution, *arch, repo_url@, image_path@));
    args
}

/// What to do about the autopkgtest image.
#[derive(Debug, Clone, Copy, PartialEq, Eq, Structural)]
pub enum ImageAction {
    /// The image is there: use it.
    UseExisting,
    /// Run the image build.
    Build,
    /// The build failed twice: report its failure.
    GiveUp,
}

/// The next step towards the image: an existing image is used as it is;
/// otherwise it is built, and a failed build is run once more (image
/// builds on some runners fail now and then); after a second failure the
/// build's error stands.
pub fn image_action(exists: bool, failed_builds: u32) -> (r: ImageAction)
    ensures
        exists ==> r == ImageAction::UseExisting,
        !exists && failed_builds < 2 ==> r == ImageAction::Build,
        !exists && failed_builds >= 2 ==> r == ImageAction::GiveUp,
{
    if exists {
        ImageAction::UseExisting
    } else if failed_builds < 2 {
        ImageAction::Build
    } else {
        ImageAction::GiveUp
    }
}

/// autopkgtest tests the changes file given first, in the QEMU image given
/// last, after `-- qemu`; one `--setup-commands=` argument per command sits
/// between, in order.
pub proof fn lemma_autopkgtest_changes_and_image(changes_file: Seq<char>, image_path: Seq<char>, setup_commands: Seq<Seq<char>>)
    ensures
        autopkgtest_args(changes_file, image_path, setup_commands).len() == 6 + setup_commands.len(),
        autopkgtest_args(changes_file, image_path, setup_commands)[0] == changes_file,
        ({
            let a = autopkgtest_args(changes_file, image_path, setup_commands);
            &&& a[a.len() - 3] == "--"@
            &&& a[a.len() - 2] == "qemu"@
            &&& a[a.len() - 1] == image_path
            &&& forall|i: int| 0 <= i < setup_commands.len() ==> a[3 + i] == "--setup-commands="@ + setup_commands[i]
        }),
{
}

} // verus!
