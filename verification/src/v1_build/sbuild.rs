//! The default sbuild chroot of the earlier packager: its name and the
//! commands that remove and create it.
use vstd::prelude::*;
use crate::text::{self, cat, cat3, push_str, push_string};
use crate::v1_build::distribution::packager::LanguageEnv;

verus! {

/// An sbuild chroot for a release, architecture and language.
pub struct SbuildDefault {
    pub codename: String,
    pub arch: String,
    pub build_env: LanguageEnv,
}

impl SbuildDefault {
    /// The chroot of a release, architecture and language.
    pub fn new(codename: &str, arch: &str, build_env: LanguageEnv) -> (r: SbuildDefault)
        ensures
            r.codename@ == codename@,
            r.arch@ == arch@,
            r.build_env == build_env,
    {
        SbuildDefault { codename: text::owned(codename), arch: text::owned(arch), build_env }
    }

    /// The chroot's name: `<codename>-<arch>-default`.
    pub fn chroot_prefix(&self) -> (r: String)
        ensures
            r@ == self.codename@ + "-"@ + self.arch@ + "-default"@,
    {
        let a = cat3(self.codename.as_str(), "-", self.arch.as_str());
        cat(a.as_str(), "-default")
    }

    /// The arguments of the `sudo rm` that removes earlier chroots of this
    /// name: the sbuild and schroot configuration and the chroot itself.
    pub fn clean_sbuild_args(&self) -> (r: Vec<String>)
        ensures
            text::views(r@) == {
                let p = self.codename@ + "-"@ + self.arch@ + "-default"@;
                seq![
                    "rm"@,
                    "-rf"@,
                    "/etc/sbuild/chroot/"@ + p,
                    "-rf"@,
                    "/etc/schroot/chroot.d/"@ + p + "*"@,
                    "-rf"@,
                    "/srv/chroot/"@ + p,
                ]
            },
    {
        let p = self.chroot_prefix();
        let mut a: Vec<String> = Vec::new();
        push_str(&mut a, "rm");
        push_str(&mut a, "-rf");
        push_string(&mut a, cat("/etc/sbuild/chroot/", p.as_str()));
        push_str(&mut a, "-rf");
        push_string(&mut a, cat3("/etc/schroot/chroot.d/", p.as_str(), "*"));
        push_str(&mut a, "-rf");
        push_string(&mut a, cat("/srv/chroot/", p.as_str()));
        a
    }

    /// The arguments of the `sudo sbuild-createchroot` that creates the
    /// chroot from the Debian mirror.
    pub fn create_sbuild_args(&self) -> (r: Vec<String>)
        ensures
            text::views(r@) == {
                let p = self.codename@ + "-"@ + self.arch@ + "-default"@;
                seq![
                    "sbuild-createchroot"@,
                    "--merged-usr"@,
                    "--chroot-prefix"@,
                    p,
                    self.codename@,
                    "/srv/chroot/"@ + p,
                    "http://deb.debian.org/debian"@,
                ]
            },
    {
        let p = self.chroot_prefix();
        let mut a: Vec<String> = Vec::new();
        push_str(&mut a, "sbuild-createchroot");
        push_str(&mut a, "--merged-usr");
        push_str(&mut a, "--chroot-prefix");
        push_str(&mut a, p.as_str());
        push_str(&mut a, self.codename.as_str());
        push_string(&mut a, cat("/srv/chroot/", p.as_str()));
        push_str(&mut a, "http://deb.debian.org/debian");
        a
    }
}

} // verus!
