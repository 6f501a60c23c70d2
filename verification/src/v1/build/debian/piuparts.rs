//! A builder for the arguments of a piuparts run.
use vstd::prelude::*;
use crate::text::{self, cat, cat3, push_str, push_string, str_eq};

verus! {

/// The arguments of a piuparts run, with the package file to test and the
/// directory to run in.
pub struct Piuparts<'a> {
    args: Vec<String>,
    deb_file: Option<&'a str>,
    deb_path: Option<&'a str>,
}

impl<'a> Piuparts<'a> {
    /// The arguments so far.
    pub closed spec fn arg_list(&self) -> Seq<Seq<char>> {
        text::views(self.args@)
    }

    /// The package file, if set.
    pub closed spec fn file(&self) -> Option<Seq<char>> {
        match self.deb_file {
            Some(d) => Some(d@),
            None => None,
        }
    }

    /// The directory to run in, if set.
    pub closed spec fn path(&self) -> Option<Seq<char>> {
        match self.deb_path {
            Some(d) => Some(d@),
            None => None,
        }
    }

    /// The arguments so far.
    pub fn args(&self) -> (r: &Vec<String>)
        ensures
            text::views(r@) == self.arg_list(),
    {
        &self.args
    }

    /// The package file and the directory to run in.
    pub fn target(&self) -> (r: (Option<&'a str>, Option<&'a str>))
        ensures
            match r.0 {
                Some(d) => self.file() == Some(d@),
                None => self.file() is None,
            },
            match r.1 {
                Some(d) => self.path() == Some(d@),
                None => self.path() is None,
            },
    {
        (self.deb_file, self.deb_path)
    }

    /// Nothing set yet.
    pub fn new() -> (r: Self)
        ensures
            r.arg_list() == Seq::<Seq<char>>::empty(),
            r.file() is None,
            r.path() is None,
    {
        let r = Piuparts { args: Vec::new(), deb_file: None, deb_path: None };
        assert(r.arg_list() =~= Seq::<Seq<char>>::empty());
        r
    }

    /// The release: `-d <codename>`.
    pub fn distribution(self, codename: &str) -> (r: Self)
        ensures
            r.arg_list() == self.arg_list() + seq!["-d"@, codename@],
            r.file() == self.file() && r.path() == self.path(),
    {
        let mut s = self;
        push_str(&mut s.args, "-d");
        push_str(&mut s.args, codename);
        s
    }

    /// The mirror: `-m <url>`.
    pub fn mirror(self, url: &str) -> (r: Self)
        ensures
            r.arg_list() == self.arg_list() + seq!["-m"@, url@],
            r.file() == self.file() && r.path() == self.path(),
    {
        let mut s = self;
        push_str(&mut s.args, "-m");
        push_str(&mut s.args, url);
        s
    }

    /// Bind-mount `/dev` into the chroot.
    pub fn bindmount_dev(self) -> (r: Self)
        ensures
            r.arg_list() == self.arg_list().push("--bindmount=/dev"@),
            r.file() == self.file() && r.path() == self.path(),
    {
        let mut s = self;
        push_str(&mut s.args, "--bindmount=/dev");
        s
    }

    /// The archive keyring: `--keyring=<keyring>`.
    pub fn keyring(self, keyring: &str) -> (r: Self)
        ensures
            r.arg_list() == self.arg_list().push("--keyring="@ + keyring@),
            r.file() == self.file() && r.path() == self.path(),
    {
        let mut s = self;
        push_string(&mut s.args, cat("--keyring=", keyring));
        s
    }

    /// Verbose output: `--verbose`.
    pub fn verbose(self) -> (r: Self)
        ensures
            r.arg_list() == self.arg_list().push("--verbose"@),
            r.file() == self.file() && r.path() == self.path(),
    {
        let mut s = self;
        push_str(&mut s.args, "--verbose");
        s
    }

    /// An extra repository: `--extra-repo=<repo>`.
    pub fn extra_repo(self, repo: &str) -> (r: Self)
        ensures
            r.arg_list() == self.arg_list().push("--extra-repo="@ + repo@),
            r.file() == self.file() && r.path() == self.path(),
    {
        let mut s = self;
        push_string(&mut s.args, cat("--extra-repo=", repo));
        s
    }

    /// Skip signature checks: `--do-not-verify-signatures`.
    pub fn no_verify_signatures(self) -> (r: Self)
        ensures
            r.arg_list() == self.arg_list().push("--do-not-verify-signatures"@),
            r.file() == self.file() && r.path() == self.path(),
    {
        let mut s = self;
        push_str(&mut s.args, "--do-not-verify-signatures");
        s
    }

    /// For a .NET package on bookworm or jammy, adds the Microsoft
    /// repository and skips signature checks. The repository is passed to
    /// `extra_repo` with its own `--extra-repo=` already in front, so that
    /// prefix appears twice.
    pub fn with_dotnet_env(self, is_dotnet: bool, codename: &str) -> (r: Self)
        ensures
            r.arg_list() == self.arg_list() + if is_dotnet && (codename@ == "bookworm"@ || codename@ == "jammy jellyfish"@) {
                seq![
                    "--extra-repo="@ + ("--extra-repo=deb https://packages.microsoft.com/debian/12/prod "@ + codename@ + " main"@),
                    "--do-not-verify-signatures"@,
                ]
            } else {
                seq![]
            },
            r.file() == self.file() && r.path() == self.path(),
    {
        if is_dotnet && (str_eq(codename, "bookworm") || str_eq(codename, "jammy jellyfish")) {
            let repo = cat3("--extra-repo=deb https://packages.microsoft.com/debian/12/prod ", codename, " main");
            let r = self.extra_repo(repo.as_str()).no_verify_signatures();
            return r;
        }
        assert(self.arg_list() + Seq::<Seq<char>>::empty() =~= self.arg_list());
        self
    }

    /// The package file to test.
    pub fn deb_file(self, deb_file: &'a str) -> (r: Self)
        ensures
            r.arg_list() == self.arg_list(),
            r.file() == Some(deb_file@) && r.path() == self.path(),
    {
        let mut s = self;
        s.deb_file = Some(deb_file);
        s
    }

    /// The directory to run in.
    pub fn deb_path(self, deb_path: &'a str) -> (r: Self)
        ensures
            r.arg_list() == self.arg_list(),
            r.file() == self.file() && r.path() == Some(deb_path@),
    {
        let mut s = self;
        s.deb_path = Some(deb_path);
        s
    }
}

} // verus!
