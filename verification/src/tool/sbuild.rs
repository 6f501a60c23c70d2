//! sbuild: building a package in a clean chroot, and creating that chroot.
use vstd::prelude::*;
use crate::config::{self, Distribution};
use crate::text::{self, push_all, push_str};

verus! {

/// An sbuild run in a package's build directory.
pub struct Sbuild<'a> {
    pub distribution: &'a Distribution,
    pub cache_file: &'a str,
    pub build_dir: &'a str,
    pub chroot_setup_commands: &'a [String],
    pub lintian: bool,
}

/// The lintian options sbuild passes on when it runs lintian itself.
pub open spec fn sbuild_lintian_args() -> Seq<Seq<char>> {
    seq![
        "--run-lintian"@,
        "--lintian-opt=-i"@,
        "--lintian-opt=--I"@,
        "--lintian-opt=--suppress-tags"@,
        "--lintian-opt=bad-distribution-in-changes-file"@,
        "--lintian-opt=--suppress-tags"@,
        "--lintian-opt=debug-file-with-no-debug-symbols"@,
        "--lintian-opt=--tag-display-limit=0"@,
        "--lintian-opts=--fail-on=error"@,
        "--lintian-opts=--fail-on=warning"@,
    ]
}

/// The arguments of an sbuild run.
pub open spec fn sbuild_args(d: Distribution, cache_file: Seq<char>, setup: Seq<Seq<char>>, lintian: bool) -> Seq<Seq<char>> {
    seq![
        "-d"@,
        config::short_name(d),
        "-A"@,
        "-s"@,
        "--source-only-changes"@,
        "-c"@,
        cache_file,
        "-v"@,
        "--chroot-mode=unshare"@,
    ] + setup + seq!["--no-run-piuparts"@, "--no-apt-upgrade"@, "--no-apt-distupgrade"@]
        + (if lintian { sbuild_lintian_args() } else { seq!["--no-run-lintian"@] })
        + seq!["--no-run-autopkgtest"@]
}

impl Sbuild<'_> {
    /// The arguments sbuild is run with: the release, arch-all and source
    /// builds, the chroot tarball, unshare mode, the chroot setup commands as
    /// given, no piuparts and no apt upgrades, lintian with its options or no
    /// lintian, and no autopkgtest.
    pub fn build_args(&self) -> (r: Vec<String>)
        ensures
            text::views(r@) == sbuild_args(*self.distribution, self.cache_file@, text::views(self.chroot_setup_commands@), self.lintian),
    {
        let mut args: Vec<String> = Vec::new();
        push_str(&mut args, "-d");
        push_str(&mut args, self.distribution.as_short());
        push_str(&mut args, "-A");
        push_str(&mut args, "-s");
        push_str(&mut args, "--source-only-changes");
        push_str(&mut args, "-c");
        push_str(&mut args, self.cache_file);
        push_str(&mut args, "-v");
        push_str(&mut args, "--chroot-mode=unshare");
        push_all(&mut args, self.chroot_setup_commands);
        push_str(&mut args, "--no-run-piuparts");
        push_str(&mut args, "--no-apt-upgrade");
        push_str(&mut args, "--no-apt-distupgrade");
        if self.lintian {
            push_str(&mut args, "--run-lintian");
            push_str(&mut args, "--lintian-opt=-i");
            push_str(&mut args, "--lintian-opt=--I");
            push_str(&mut args, "--lintian-opt=--suppress-tags");
            push_str(&mut args, "--lintian-opt=bad-distribution-in-changes-file");
            push_str(&mut args, "--lintian-opt=--suppress-tags");
            push_str(&mut args, "--lintian-opt=debug-file-with-no-debug-symbols");
            push_str(&mut args, "--lintian-opt=--tag-display-limit=0");
            push_str(&mut args, "--lintian-opts=--fail-on=error");
            push_str(&mut args, "--lintian-opts=--fail-on=warning");
        } else {
            push_str(&mut args, "--no-run-lintian");
        }
        push_str(&mut args, "--no-run-autopkgtest");
        assert(text::views(args@) =~= sbuild_args(*self.distribution, self.cache_file@, text::views(self.chroot_setup_commands@), self.lintian));
        args
    }
}

/// An sbuild-createchroot run that makes the chroot tarball.
pub struct SbuildCreateChroot<'a> {
    pub distribution: &'a Distribution,
    pub cache_file: &'a str,
    pub temp_dir: &'a str,
    pub repo_url: &'a str,
    pub snapshot: bool,
}

/// The arguments of an sbuild-createchroot run.
pub open spec fn create_chroot_args(d: Distribution, cache_file: Seq<char>, temp_dir: Seq<char>, repo_url: Seq<char>, snapshot: bool) -> Seq<Seq<char>> {
    seq!["--chroot-mode=unshare"@, "--make-sbuild-tarball"@, cache_file]
        + (if snapshot { seq!["--debootstrapopts=--no-check-gpg"@] } else { seq![] })
        + seq![config::short_name(d), temp_dir, repo_url]
}

impl SbuildCreateChroot<'_> {
    /// The arguments sbuild-createchroot is run with: unshare mode, the
    /// tarball to make, no GPG check for snapshot archives (whose Release
    /// files have expired), then the release, the directory and the mirror.
    pub fn build_args(&self) -> (r: Vec<String>)
        ensures
            text::views(r@) == create_chroot_args(*self.distribution, self.cache_file@, self.temp_dir@, self.repo_url@, self.snapshot),
    {
        let mut args: Vec<String> = Vec::new();
        push_str(&mut args, "--chroot-mode=unshare");
        push_str(&mut args, "--make-sbuild-tarball");
        push_str(&mut args, self.cache_file);
        if self.snapshot {
            push_str(&mut args, "--debootstrapopts=--no-check-gpg");
        }
        push_str(&mut args, self.distribution.as_short());
        push_str(&mut args, self.temp_dir);
        push_str(&mut args, self.repo_url);
        assert(text::views(args@) =~= create_chroot_args(*self.distribution, self.cache_file@, self.temp_dir@, self.repo_url@, self.snapshot));
        args
    }
}

/// sbuild-createchroot makes the tarball named after
/// `--make-sbuild-tarball`, and its last three arguments are, in this
/// order, the release's short name, the target directory and the mirror.
pub proof fn lemma_create_chroot_positionals(d: Distribution, cache_file: Seq<char>, temp_dir: Seq<char>, repo_url: Seq<char>, snapshot: bool)
    ensures
        create_chroot_args(d, cache_file, temp_dir, repo_url, snapshot).len() >= 6,
        create_chroot_args(d, cache_file, temp_dir, repo_url, snapshot)[0] == "--chroot-mode=unshare"@,
        create_chroot_args(d, cache_file, temp_dir, repo_url, snapshot)[1] == "--make-sbuild-tarball"@,
        create_chroot_args(d, cache_file, temp_dir, repo_url, snapshot)[2] == cache_file,
        ({
            let a = create_chroot_args(d, cache_file, temp_dir, repo_url, snapshot);
            &&& a[a.len() - 3] == config::short_name(d)
            &&& a[a.len() - 2] == temp_dir
            &&& a[a.len() - 1] == repo_url
        }),
{
}

/// sbuild is told the release after `-d` and the chroot tarball after
/// `-c`; it never runs autopkgtest itself, and it runs lintian exactly when
/// asked to.
pub proof fn lemma_sbuild_release_and_tarball(d: Distribution, cache_file: Seq<char>, setup: Seq<Seq<char>>, lintian: bool)
    ensures
        sbuild_args(d, cache_file, setup, lintian).len() >= 14,
        sbuild_args(d, cache_file, setup, lintian)[0] == "-d"@,
        sbuild_args(d, cache_file, setup, lintian)[1] == config::short_name(d),
        sbuild_args(d, cache_file, setup, lintian)[5] == "-c"@,
        sbuild_args(d, cache_file, setup, lintian)[6] == cache_file,
        sbuild_args(d, cache_file, setup, lintian).last() == "--no-run-autopkgtest"@,
        sbuild_args(d, cache_file, setup, lintian).subrange(9, 9 + setup.len() as int) == setup,
        ({
            let a = sbuild_args(d, cache_file, setup, lintian);
            let i = 12 + setup.len() as int;
            if lintian { a[i] == "--run-lintian"@ } else { a[i] == "--no-run-lintian"@ }
        }),
{
    let a = sbuild_args(d, cache_file, setup, lintian);
    assert(a.subrange(9, 9 + setup.len() as int) =~= setup);
}

} // verus!
