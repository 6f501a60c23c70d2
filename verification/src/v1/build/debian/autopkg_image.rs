//! A builder for the program and arguments that build an autopkgtest image.
use vstd::prelude::*;
use crate::text::{self, cat, cat5, path_debug, push_str, push_string, str_eq, trim_char};
use crate::paths::{self, path_join, pop_path, tilde};

verus! {

/// The program that builds an autopkgtest image, its arguments and the
/// directory it runs in.
pub struct AutopkgtestImageBuilder {
    cmd: &'static str,
    args: Vec<String>,
    dir: Option<String>,
}

/// The codenames an image can be built for.
pub open spec fn image_codename(c: Seq<char>) -> bool {
    c == "bookworm"@ || c == "noble numbat"@ || c == "jammy jellyfish"@
}

impl AutopkgtestImageBuilder {
    /// The arguments so far.
    pub closed spec fn arg_list(&self) -> Seq<Seq<char>> {
        text::views(self.args@)
    }

    /// The program to run.
    pub closed spec fn program(&self) -> Seq<char> {
        self.cmd@
    }

    /// The working directory, if one was set.
    pub closed spec fn work_dir(&self) -> Option<Seq<char>> {
        match self.dir {
            Some(d) => Some(d@),
            None => None,
        }
    }

    /// The program to run.
    pub fn cmd(&self) -> (r: &'static str)
        ensures
            r@ == self.program(),
    {
        self.cmd
    }

    /// The arguments so far.
    pub fn args(&self) -> (r: &Vec<String>)
        ensures
            text::views(r@) == self.arg_list(),
    {
        &self.args
    }

    /// The working directory, if one was set.
    pub fn dir(&self) -> (r: Option<String>)
        ensures
            match r {
                Some(d) => self.work_dir() == Some(d@),
                None => self.work_dir() is None,
            },
    {
        match &self.dir {
            Some(d) => Some(d.clone()),
            None => None,
        }
    }

    /// The Debian image builder, with no arguments yet.
    pub fn new() -> (r: Self)
        ensures
            r.program() == "autopkgtest-build-qemu"@,
            r.arg_list() == Seq::<Seq<char>>::empty(),
            r.work_dir() is None,
    {
        let r = AutopkgtestImageBuilder { cmd: "autopkgtest-build-qemu", args: Vec::new(), dir: None };
        assert(r.arg_list() =~= Seq::<Seq<char>>::empty());
        r
    }

    /// The release: on bookworm the Debian builder with the codename, on the
    /// Ubuntu codenames the Ubuntu cloud builder with `--release=<codename>`.
    pub fn codename(self, codename: &str) -> (r: Self)
        requires
            image_codename(codename@),
        ensures
            codename@ == "bookworm"@ ==> r.program() == "autopkgtest-build-qemu"@
                && r.arg_list() == self.arg_list().push(codename@),
            codename@ != "bookworm"@ ==> r.program() == "autopkgtest-buildvm-ubuntu-cloud"@
                && r.arg_list() == self.arg_list().push("--release="@ + codename@),
            r.work_dir() == self.work_dir(),
    {
        let mut s = self;
        if str_eq(codename, "bookworm") {
            s.cmd = "autopkgtest-build-qemu";
            push_str(&mut s.args, codename);
        } else {
            s.cmd = "autopkgtest-buildvm-ubuntu-cloud";
            push_string(&mut s.args, cat("--release=", codename));
        }
        s
    }

    /// The image to make: `autopkgtest-<codename>-<arch>.img` in the cache
    /// directory (with `~` expanded), passed in its `Debug` form; the
    /// builder runs in the image's directory.
    pub fn image_path(self, cache_dir: &str, codename: &str, arch: &str) -> (r: Self)
        ensures
            r.program() == self.program(),
            exists|dir: Seq<char>| paths::tilde_expanded(cache_dir@, dir) && {
                let p = paths::join_spec(dir, "autopkgtest-"@ + codename@ + "-"@ + arch@ + ".img"@);
                &&& r.arg_list() == self.arg_list().push(text::path_debug_form(p))
                &&& r.work_dir() == Some(paths::popped_path(p))
            },
    {
        let mut s = self;
        let name = cat5("autopkgtest-", codename, "-", arch, ".img");
        let dir = tilde(cache_dir);
        let path = path_join(dir.as_str(), name.as_str());
        push_string(&mut s.args, path_debug(path.as_str()));
        s.dir = Some(pop_path(path.as_str()));
        s
    }

    /// The mirror: `--mirror=<url>`.
    pub fn mirror(self, repo_url: &str) -> (r: Self)
        ensures
            r.arg_list() == self.arg_list().push("--mirror="@ + repo_url@),
            r.program() == self.program() && r.work_dir() == self.work_dir(),
    {
        let mut s = self;
        push_string(&mut s.args, cat("--mirror=", repo_url));
        s
    }

    /// The architecture: `--arch=<arch>`.
    pub fn arch(self, arch: &str) -> (r: Self)
        ensures
            r.arg_list() == self.arg_list().push("--arch="@ + arch@),
            r.program() == self.program() && r.work_dir() == self.work_dir(),
    {
        let mut s = self;
        push_string(&mut s.args, cat("--arch=", arch));
        s
    }

    /// The image path: the second argument with its quotes removed.
    pub fn get_image_path(&self) -> (r: Option<String>)
        ensures
            self.arg_list().len() > 1 ==> (r matches Some(p) && p@ == text::trim_char_spec(self.arg_list()[1], '"')),
            self.arg_list().len() <= 1 ==> r is None,
    {
        if self.args.len() > 1 {
            Some(trim_char(self.args[1].as_str(), '"'))
        } else {
            None
        }
    }
}

} // verus!
