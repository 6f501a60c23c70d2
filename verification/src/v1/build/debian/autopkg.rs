//! A builder for the arguments of an autopkgtest run.
use vstd::prelude::*;
use crate::text::{self, push_prefixed, push_str};

verus! {

/// The arguments of an autopkgtest run and the directory it runs in.
pub struct Autopkgtest {
    args: Vec<String>,
    dir: Option<String>,
}

impl Autopkgtest {
    /// The arguments so far.
    pub closed spec fn arg_list(&self) -> Seq<Seq<char>> {
        text::views(self.args@)
    }

    /// The working directory, if one was set.
    pub closed spec fn work_dir(&self) -> Option<Seq<char>> {
        match self.dir {
            Some(d) => Some(d@),
            None => None,
        }
    }

    /// The arguments so far.
    pub fn args(&self) -> (r: &Vec<String>)
        ensures
            text::views(r@) == self.arg_list(),
    {
        &self.args
    }

    /// The working directory, if one was set.
    pub fn dir(&self) -> (r: Option<String>)
        ensures
            match r {
                Some(d) => self.work_dir() == Some(d@),
                None => self.work_dir() is None,
            },
    {
        match &self.dir {
            Some(d) => Some(d.clone()),
            None => None,
        }
    }

    /// Nothing set yet.
    pub fn new() -> (r: Self)
        ensures
            r.arg_list() == Seq::<Seq<char>>::empty(),
            r.work_dir() is None,
    {
        let r = Autopkgtest { args: Vec::new(), dir: None };
        assert(r.arg_list() =~= Seq::<Seq<char>>::empty());
        r
    }

    /// The changes file of the packages to test.
    pub fn changes_file(self, file: &str) -> (r: Self)
        ensures
            r.arg_list() == self.arg_list().push(file@),
            r.work_dir() == self.work_dir(),
    {
        let mut s = self;
        push_str(&mut s.args, file);
        s
    }

    /// Do not rebuild the packages: `--no-built-binaries`.
    pub fn no_built_binaries(self) -> (r: Self)
        ensures
            r.arg_list() == self.arg_list().push("--no-built-binaries"@),
            r.work_dir() == self.work_dir(),
    {
        let mut s = self;
        push_str(&mut s.args, "--no-built-binaries");
        s
    }

    /// Upgrade the test bed first: `--apt-upgrade`.
    pub fn apt_upgrade(self) -> (r: Self)
        ensures
            r.arg_list() == self.arg_list().push("--apt-upgrade"@),
            r.work_dir() == self.work_dir(),
    {
        let mut s = self;
        push_str(&mut s.args, "--apt-upgrade");
        s
    }

    /// One `--setup-commands=` per test-bed setup command.
    pub fn test_deps_not_in_debian(self, deps: &[String]) -> (r: Self)
        ensures
            r.arg_list() == self.arg_list() + text::prefixed("--setup-commands="@, text::views(deps@)),
            r.work_dir() == self.work_dir(),
    {
        let mut s = self;
        push_prefixed(&mut s.args, "--setup-commands=", deps);
        s
    }

    /// Test in a QEMU image: `-- qemu <image>`.
    pub fn qemu(self, image_path: &str) -> (r: Self)
        ensures
            r.arg_list() == self.arg_list() + seq!["--"@, "qemu"@, image_path@],
            r.work_dir() == self.work_dir(),
    {
        let mut s = self;
        push_str(&mut s.args, "--");
        push_str(&mut s.args, "qemu");
        push_str(&mut s.args, image_path);
        s
    }

    /// The directory autopkgtest runs in.
    pub fn working_dir(self, dir: &str) -> (r: Self)
        ensures
            r.arg_list() == self.arg_list(),
            r.work_dir() == Some(dir@),
    {
        let mut s = self;
        s.dir = Some(text::owned(dir));
        s
    }
}

} // verus!
