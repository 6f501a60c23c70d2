//! The distributions and architectures a package is built for.
use vstd::prelude::*;

verus! {

/// A Debian release.
#[derive(Clone, Copy, Debug, PartialEq, Eq, Structural)]
pub enum DebianCodename {
    Bookworm,
    Trixie,
}

/// An Ubuntu release.
#[derive(Clone, Copy, Debug, PartialEq, Eq, Structural)]
pub enum UbuntuCodename {
    Jammy,
    Noble,
}

/// The distribution a package is built for.
#[derive(Clone, Copy, Debug, PartialEq, Eq, Structural)]
pub enum Distribution {
    Debian(DebianCodename),
    Ubuntu(UbuntuCodename),
}

/// The machine architecture a package is built for.
#[derive(Clone, Copy, Debug, PartialEq, Eq, Structural)]
pub enum Architecture {
    Amd64,
}

/// The short release name of a Debian codename.
pub open spec fn debian_name(c: DebianCodename) -> Seq<char> {
    match c {
        DebianCodename::Bookworm => "bookworm"@,
        DebianCodename::Trixie => "trixie"@,
    }
}

/// The short release name of an Ubuntu codename.
pub open spec fn ubuntu_name(c: UbuntuCodename) -> Seq<char> {
    match c {
        UbuntuCodename::Jammy => "jammy"@,
        UbuntuCodename::Noble => "noble"@,
    }
}

/// The short release name of a distribution, as sbuild and the archives use it.
pub open spec fn short_name(d: Distribution) -> Seq<char> {
    match d {
        Distribution::Debian(c) => debian_name(c),
        Distribution::Ubuntu(c) => ubuntu_name(c),
    }
}

/// The archive keyring of a distribution.
pub open spec fn keyring_of(d: Distribution) -> Seq<char> {
    match d {
        Distribution::Debian(_) => "/usr/share/keyrings/debian-archive-keyring.gpg"@,
        Distribution::Ubuntu(_) => "/usr/share/keyrings/ubuntu-archive-keyring.gpg"@,
    }
}

/// The default package mirror of a distribution.
pub open spec fn repo_url_of(d: Distribution) -> Seq<char> {
    match d {
        Distribution::Debian(_) => "http://deb.debian.org/debian"@,
        Distribution::Ubuntu(_) => "http://archive.ubuntu.com/ubuntu"@,
    }
}

/// The lintian tags that a distribution's own packaging format trips.
pub open spec fn lintian_suppressions_of(d: Distribution) -> Seq<Seq<char>> {
    match d {
        Distribution::Debian(_) => seq![],
        Distribution::Ubuntu(_) => seq!["malformed-deb-archive"@],
    }
}

/// The name of an architecture.
pub open spec fn arch_name(a: Architecture) -> Seq<char> {
    match a {
        Architecture::Amd64 => "amd64"@,
    }
}

/// Different distributions have different short release names, so a name
/// given to sbuild, piuparts or the image builder picks out one release.
pub proof fn lemma_short_names_distinct(d1: Distribution, d2: Distribution)
    requires
        d1 != d2,
    ensures
        short_name(d1) != short_name(d2),
{
    reveal_strlit("bookworm");
    reveal_strlit("trixie");
    reveal_strlit("jammy");
    reveal_strlit("noble");
    assert("bookworm"@[0] == 'b' && "trixie"@[0] == 't' && "jammy"@[0] == 'j' && "noble"@[0] == 'n');
}

impl DebianCodename {
    /// The release name (`bookworm`, `trixie`).
    pub fn as_str(&self) -> (r: &'static str)
        ensures
            r@ == debian_name(*self),
    {
        match self {
            DebianCodename::Bookworm => "bookworm",
            DebianCodename::Trixie => "trixie",
        }
    }
}

impl UbuntuCodename {
    /// The release name (`jammy`, `noble`).
    pub fn as_str(&self) -> (r: &'static str)
        ensures
            r@ == ubuntu_name(*self),
    {
        match self {
            UbuntuCodename::Jammy => "jammy",
            UbuntuCodename::Noble => "noble",
        }
    }
}

impl Architecture {
    /// The architecture's name (`amd64`).
    pub fn as_str(&self) -> (r: &'static str)
        ensures
            r@ == arch_name(*self),
    {
        match self {
            Architecture::Amd64 => "amd64",
        }
    }
}

impl Distribution {
    /// Debian 12.
    pub fn bookworm() -> (r: Distribution)
        ensures
            r == Distribution::Debian(DebianCodename::Bookworm),
    {
        Distribution::Debian(DebianCodename::Bookworm)
    }

    /// Debian 13.
    pub fn trixie() -> (r: Distribution)
        ensures
            r == Distribution::Debian(DebianCodename::Trixie),
    {
        Distribution::Debian(DebianCodename::Trixie)
    }

    /// Ubuntu 22.04.
    pub fn jammy() -> (r: Distribution)
        ensures
            r == Distribution::Ubuntu(UbuntuCodename::Jammy),
    {
        Distribution::Ubuntu(UbuntuCodename::Jammy)
    }

    /// Ubuntu 24.04.
    pub fn noble() -> (r: Distribution)
        ensures
            r == Distribution::Ubuntu(UbuntuCodename::Noble),
    {
        Distribution::Ubuntu(UbuntuCodename::Noble)
    }

    /// The short release name (`bookworm`, `noble`, ...).
    pub fn as_short(&self) -> (r: &'static str)
        ensures
            r@ == short_name(*self),
    {
        match self {
            Distribution::Debian(c) => c.as_str(),
            Distribution::Ubuntu(c) => c.as_str(),
        }
    }

    /// The archive keyring that verifies the distribution's packages.
    pub fn keyring(&self) -> (r: &'static str)
        ensures
            r@ == keyring_of(*self),
    {
        match self {
            Distribution::Debian(_) => "/usr/share/keyrings/debian-archive-keyring.gpg",
            Distribution::Ubuntu(_) => "/usr/share/keyrings/ubuntu-archive-keyring.gpg",
        }
    }

    /// The default mirror of the distribution.
    pub fn repo_url(&self) -> (r: &'static str)
        ensures
            r@ == repo_url_of(*self),
    {
        match self {
            Distribution::Debian(_) => "http://deb.debian.org/debian",
            Distribution::Ubuntu(_) => "http://archive.ubuntu.com/ubuntu",
        }
    }

    /// The lintian tags to suppress on this distribution.
    pub fn lintian_suppressions(&self) -> (r: Vec<String>)
        ensures
            crate::text::views(r@) == lintian_suppressions_of(*self),
    {
        let mut r: Vec<String> = Vec::new();
        match self {
            Distribution::Debian(_) => {},
            Distribution::Ubuntu(_) => {
                crate::text::push_str(&mut r, "malformed-deb-archive");
            },
        }
        assert(crate::text::views(r@) =~= lintian_suppressions_of(*self));
        r
    }
}

} // verus!
