//! A builder for the arguments of an sbuild-createchroot run.
use vstd::prelude::*;
use crate::text::{self, cat, push_str, push_string};

verus! {

/// The arguments of an sbuild-createchroot run, built up in order.
pub struct SbuildCreateChroot {
    args: Vec<String>,
}

impl SbuildCreateChroot {
    /// The arguments so far.
    pub closed spec fn arg_list(&self) -> Seq<Seq<char>> {
        text::views(self.args@)
    }

    /// The arguments so far.
    pub fn args(&self) -> (r: &Vec<String>)
        ensures
            text::views(r@) == self.arg_list(),
    {
        &self.args
    }

    /// No arguments yet.
    pub fn new() -> (r: Self)
        ensures
            r.arg_list() == Seq::<Seq<char>>::empty(),
    {
        let r = SbuildCreateChroot { args: Vec::new() };
        assert(r.arg_list() =~= Seq::<Seq<char>>::empty());
        r
    }

    /// The chroot mode: `--chroot-mode=<mode>`.
    pub fn chroot_mode(self, mode: &str) -> (r: Self)
        ensures
            r.arg_list() == self.arg_list().push("--chroot-mode="@ + mode@),
    {
        let mut s = self;
        push_string(&mut s.args, cat("--chroot-mode=", mode));
        s
    }

    /// Make a tarball of the chroot: `--make-sbuild-tarball`.
    pub fn make_tarball(self) -> (r: Self)
        ensures
            r.arg_list() == self.arg_list().push("--make-sbuild-tarball"@),
    {
        let mut s = self;
        push_str(&mut s.args, "--make-sbuild-tarball");
        s
    }

    /// The tarball to make.
    pub fn cache_file(self, path: &str) -> (r: Self)
        ensures
            r.arg_list() == self.arg_list().push(path@),
    {
        let mut s = self;
        push_str(&mut s.args, path);
        s
    }

    /// The release to install.
    pub fn codename(self, name: &str) -> (r: Self)
        ensures
            r.arg_list() == self.arg_list().push(name@),
    {
        let mut s = self;
        push_str(&mut s.args, name);
        s
    }

    /// The directory the chroot is made in.
    pub fn temp_dir(self, dir: &str) -> (r: Self)
        ensures
            r.arg_list() == self.arg_list().push(dir@),
    {
        let mut s = self;
        push_str(&mut s.args, dir);
        s
    }

    /// The mirror to install from.
    pub fn repo_url(self, url: &str) -> (r: Self)
        ensures
            r.arg_list() == self.arg_list().push(url@),
    {
        let mut s = self;
        push_str(&mut s.args, url);
        s
    }
}

} // verus!
