//! A builder for the arguments of an sbuild run.
use vstd::prelude::*;
use crate::text::{self, push_all, push_str};

verus! {

/// The arguments of an sbuild run and the directory it runs in.
pub struct SbuildBuilder {
    args: Vec<String>,
    dir: Option<String>,
}

impl SbuildBuilder {
    /// The arguments so far.
    pub closed spec fn arg_list(&self) -> Seq<Seq<char>> {
        text::views(self.args@)
    }

    /// The working directory, if one was set.
    pub closed spec fn work_dir(&self) -> Option<Seq<char>> {
        match self.dir {
            Some(d) => Some(d@),
            None => None,
        }
    }

    /// The arguments so far.
    pub fn args(&self) -> (r: &Vec<String>)
        ensures
            text::views(r@) == self.arg_list(),
    {
        &self.args
    }

    /// The working directory, if one was set.
    pub fn dir(&self) -> (r: Option<String>)
        ensures
            match r {
                Some(d) => self.work_dir() == Some(d@),
                None => self.work_dir() is None,
            },
    {
        match &self.dir {
            Some(d) => Some(d.clone()),
            None => None,
        }
    }

    /// No arguments and no working directory yet.
    pub fn new() -> (r: Self)
        ensures
            r.arg_list() == Seq::<Seq<char>>::empty(),
            r.work_dir() is None,
    {
        let r = SbuildBuilder { args: Vec::new(), dir: None };
        assert(r.arg_list() =~= Seq::<Seq<char>>::empty());
        r
    }

    /// The release to build for: `-d <codename>`.
    pub fn distribution(self, codename: &str) -> (r: Self)
        ensures
            r.arg_list() == self.arg_list() + seq!["-d"@, codename@],
            r.work_dir() == self.work_dir(),
    {
        let mut s = self;
        push_str(&mut s.args, "-d");
        push_str(&mut s.args, codename);
        s
    }

    /// Build architecture-independent packages: `-A`.
    pub fn build_arch_all(self) -> (r: Self)
        ensures
            r.arg_list() == self.arg_list().push("-A"@),
            r.work_dir() == self.work_dir(),
    {
        let mut s = self;
        push_str(&mut s.args, "-A");
        s
    }

    /// Build the source package too: `-s --source-only-changes`.
    pub fn build_source(self) -> (r: Self)
        ensures
            r.arg_list() == self.arg_list() + seq!["-s"@, "--source-only-changes"@],
            r.work_dir() == self.work_dir(),
    {
        let mut s = self;
        push_str(&mut s.args, "-s");
        push_str(&mut s.args, "--source-only-changes");
        s
    }

    /// The chroot tarball: `-c <file>`.
    pub fn cache_file(self, cache_file: &str) -> (r: Self)
        ensures
            r.arg_list() == self.arg_list() + seq!["-c"@, cache_file@],
            r.work_dir() == self.work_dir(),
    {
        let mut s = self;
        push_str(&mut s.args, "-c");
        push_str(&mut s.args, cache_file);
        s
    }

    /// Verbose output: `-v`.
    pub fn verbose(self) -> (r: Self)
        ensures
            r.arg_list() == self.arg_list().push("-v"@),
            r.work_dir() == self.work_dir(),
    {
        let mut s = self;
        push_str(&mut s.args, "-v");
        s
    }

    /// Run the chroot in unshare mode.
    pub fn chroot_mode_unshare(self) -> (r: Self)
        ensures
            r.arg_list() == self.arg_list().push("--chroot-mode=unshare"@),
            r.work_dir() == self.work_dir(),
    {
        let mut s = self;
        push_str(&mut s.args, "--chroot-mode=unshare");
        s
    }

    /// Extra arguments, as given (chroot setup commands).
    pub fn setup_commands(self, commands: &[String]) -> (r: Self)
        ensures
            r.arg_list() == self.arg_list() + text::views(commands@),
            r.work_dir() == self.work_dir(),
    {
        let mut s = self;
        push_all(&mut s.args, commands);
        s
    }

    /// Do not run piuparts: `--no-run-piuparts`.
    pub fn no_run_piuparts(self) -> (r: Self)
        ensures
            r.arg_list() == self.arg_list().push("--no-run-piuparts"@),
            r.work_dir() == self.work_dir(),
    {
        let mut s = self;
        push_str(&mut s.args, "--no-run-piuparts");
        s
    }

    /// No apt upgrades in the chroot.
    pub fn no_apt_upgrades(self) -> (r: Self)
        ensures
            r.arg_list() == self.arg_list() + seq!["--no-apt-upgrade"@, "--no-apt-distupgrade"@],
            r.work_dir() == self.work_dir(),
    {
        let mut s = self;
        push_str(&mut s.args, "--no-apt-upgrade");
        push_str(&mut s.args, "--no-apt-distupgrade");
        s
    }

    /// Run lintian with its options, or not at all.
    pub fn run_lintian(self, enabled: bool) -> (r: Self)
        ensures
            r.arg_list() == self.arg_list() + if enabled {
                crate::v1::build::sbuild::sbuild_lintian_opts()
            } else {
                seq!["--no-run-lintian"@]
            },
            r.work_dir() == self.work_dir(),
    {
        let mut s = self;
        let ghost before = s.arg_list();
        if enabled {
            push_str(&mut s.args, "--run-lintian");
            push_str(&mut s.args, "--lintian-opt=-i");
            push_str(&mut s.args, "--lintian-opt=--I");
            push_str(&mut s.args, "--lintian-opt=--suppress-tags");
            push_str(&mut s.args, "--lintian-opt=bad-distribution-in-changes-file");
            push_str(&mut s.args, "--lintian-opt=--suppress-tags");
            push_str(&mut s.args, "--lintian-opt=debug-file-with-no-debug-symbols");
            push_str(&mut s.args, "--lintian-opt=--tag-display-limit=0");
            push_str(&mut s.args, "--lintian-opts=--fail-on=error");
            push_str(&mut s.args, "--lintian-opts=--fail-on=warning");
        } else {
            push_str(&mut s.args, "--no-run-lintian");
        }
        assert(s.arg_list() =~= before + if enabled {
                crate::v1::build::sbuild::sbuild_lintian_opts()
            } else {
                seq!["--no-run-lintian"@]
            });
        s
    }

    /// Do not run autopkgtest: `--no-run-autopkgtest`.
    pub fn no_run_autopkgtest(self) -> (r: Self)
        ensures
            r.arg_list() == self.arg_list().push("--no-run-autopkgtest"@),
            r.work_dir() == self.work_dir(),
    {
        let mut s = self;
        push_str(&mut s.args, "--no-run-autopkgtest");
        s
    }

    /// The directory sbuild runs in.
    pub fn working_dir(self, dir: &str) -> (r: Self)
        ensures
            r.arg_list() == self.arg_list(),
            r.work_dir() == Some(dir@),
    {
        let mut s = self;
        s.dir = Some(text::owned(dir));
        s
    }
}

} // verus!
