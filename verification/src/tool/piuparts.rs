//! piuparts: installation, upgrade and removal tests of a built package.
use vstd::prelude::*;
use crate::config::{self, Distribution, UbuntuCodename};
use crate::text::{self, cat, cat3, push_str, push_string};

verus! {

/// A piuparts run on one `.deb` file.
pub struct Piuparts<'a> {
    pub distribution: &'a Distribution,
    pub deb_file: &'a str,
    pub deb_dir: &'a str,
    pub is_dotnet: bool,
    pub repo_url: &'a str,
}

/// The Microsoft package repository line for a release name.
pub open spec fn microsoft_repo(release: Seq<char>) -> Seq<char> {
    "deb https://packages.microsoft.com/debian/12/prod "@ + release + " main"@
}

/// The extra arguments a .NET package needs: the Microsoft repository and no
/// signature checks, on Debian and on Ubuntu Jammy; nothing elsewhere.
pub open spec fn dotnet_piuparts_args(d: Distribution) -> Seq<Seq<char>> {
    match d {
        Distribution::Debian(c) => seq![
            "--extra-repo="@ + microsoft_repo(config::debian_name(c)),
            "--do-not-verify-signatures"@,
        ],
        Distribution::Ubuntu(UbuntuCodename::Jammy) => seq![
            "--extra-repo="@ + microsoft_repo("jammy"@),
            "--do-not-verify-signatures"@,
        ],
        _ => seq![],
    }
}

/// The arguments of a piuparts run.
pub open spec fn piuparts_args(d: Distribution, repo_url: Seq<char>, deb_file: Seq<char>, is_dotnet: bool) -> Seq<Seq<char>> {
    seq![
        "-d"@,
        config::short_name(d),
        "-m"@,
        repo_url,
        "--bindmount=/dev"@,
        "--keyring="@ + config::keyring_of(d),
        "--verbose"@,
    ] + (if is_dotnet { dotnet_piuparts_args(d) } else { seq![] }) + seq![deb_file]
}

impl Piuparts<'_> {
    /// The arguments piuparts is run with: the release, the mirror, `/dev`
    /// bind-mounted, the distribution keyring, verbose output, the .NET
    /// repository where it applies, and the package file.
    pub fn build_args(&self) -> (r: Vec<String>)
        ensures
            text::views(r@) == piuparts_args(*self.distribution, self.repo_url@, self.deb_file@, self.is_dotnet),
    {
        let mut args: Vec<String> = Vec::new();
        push_str(&mut args, "-d");
        push_str(&mut args, self.distribution.as_short());
        push_str(&mut args, "-m");
        push_str(&mut args, self.repo_url);
        push_str(&mut args, "--bindmount=/dev");
        push_string(&mut args, cat("--keyring=", self.distribution.keyring()));
        push_str(&mut args, "--verbose");
        if self.is_dotnet {
            match self.distribution {
                Distribution::Debian(c) => {
                    let repo = cat3("deb https://packages.microsoft.com/debian/12/prod ", c.as_str(), " main");
                    push_string(&mut args, cat("--extra-repo=", repo.as_str()));
                    push_str(&mut args, "--do-not-verify-signatures");
                },
                Distribution::Ubuntu(UbuntuCodename::Jammy) => {
                    let repo = cat3("deb https://packages.microsoft.com/debian/12/prod ", "jammy", " main");
                    push_string(&mut args, cat("--extra-repo=", repo.as_str()));
                    push_str(&mut args, "--do-not-verify-signatures");
                },
                _ => {},
            }
        }
        push_str(&mut args, self.deb_file);
        assert(text::views(args@) =~= piuparts_args(*self.distribution, self.repo_url@, self.deb_file@, self.is_dotnet));
        args
    }
}

/// piuparts is told the release after `-d` and the mirror after `-m`, as
/// its first four arguments; the package file always comes last, and the
/// distribution's keyring is given. A .NET package on Debian or on jammy
/// also gets the Microsoft repository of that same release, without
/// signature checks; nothing else is added.
pub proof fn lemma_piuparts_release_and_mirror(d: Distribution, repo_url: Seq<char>, deb_file: Seq<char>, is_dotnet: bool)
    ensures
        piuparts_args(d, repo_url, deb_file, is_dotnet).len() >= 8,
        piuparts_args(d, repo_url, deb_file, is_dotnet)[0] == "-d"@,
        piuparts_args(d, repo_url, deb_file, is_dotnet)[1] == config::short_name(d),
        piuparts_args(d, repo_url, deb_file, is_dotnet)[2] == "-m"@,
        piuparts_args(d, repo_url, deb_file, is_dotnet)[3] == repo_url,
        piuparts_args(d, repo_url, deb_file, is_dotnet)[5] == "--keyring="@ + config::keyring_of(d),
        piuparts_args(d, repo_url, deb_file, is_dotnet).last() == deb_file,
        is_dotnet && (d is Debian || d == Distribution::Ubuntu(UbuntuCodename::Jammy)) ==> {
            &&& piuparts_args(d, repo_url, deb_file, is_dotnet).len() == 10
            &&& piuparts_args(d, repo_url, deb_file, is_dotnet)[7] == "--extra-repo="@ + microsoft_repo(config::short_name(d))
            &&& piuparts_args(d, repo_url, deb_file, is_dotnet)[8] == "--do-not-verify-signatures"@
        },
        !(is_dotnet && (d is Debian || d == Distribution::Ubuntu(UbuntuCodename::Jammy)))
            ==> piuparts_args(d, repo_url, deb_file, is_dotnet).len() == 8,
{
}

} // verus!
