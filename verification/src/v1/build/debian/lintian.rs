//! A builder for the arguments of a lintian run.
use vstd::prelude::*;
use crate::text::{self, cat, decimal, path_debug, push_str, push_string, str_eq};

verus! {

/// The arguments of a lintian run, built up option by option.
pub struct Lintian {
    args: Vec<String>,
}

impl Lintian {
    /// The arguments so far.
    pub closed spec fn arg_list(&self) -> Seq<Seq<char>> {
        text::views(self.args@)
    }

    /// The arguments so far.
    pub fn args(&self) -> (r: &Vec<String>)
        ensures
            text::views(r@) == self.arg_list(),
    {
        &self.args
    }

    /// No arguments yet.
    pub fn new() -> (r: Self)
        ensures
            r.arg_list() == Seq::<Seq<char>>::empty(),
    {
        let r = Lintian { args: Vec::new() };
        assert(r.arg_list() =~= Seq::<Seq<char>>::empty());
        r
    }

    /// Suppresses a tag: `--suppress-tags <tag>`.
    pub fn suppress_tag(self, tag: &str) -> (r: Self)
        ensures
            r.arg_list() == self.arg_list() + seq!["--suppress-tags"@, tag@],
    {
        let mut s = self;
        push_str(&mut s.args, "--suppress-tags");
        push_str(&mut s.args, tag);
        s
    }

    /// Informational output: `-i`.
    pub fn info(self) -> (r: Self)
        ensures
            r.arg_list() == self.arg_list().push("-i"@),
    {
        let mut s = self;
        push_str(&mut s.args, "-i");
        s
    }

    /// Extended informational output: `--I`.
    pub fn extended_info(self) -> (r: Self)
        ensures
            r.arg_list() == self.arg_list().push("--I"@),
    {
        let mut s = self;
        push_str(&mut s.args, "--I");
        s
    }

    /// The changes file to check, in its `Debug` form (quoted).
    pub fn changes_file(self, file: &str) -> (r: Self)
        ensures
            r.arg_list() == self.arg_list().push(text::path_debug_form(file@)),
    {
        let mut s = self;
        push_string(&mut s.args, path_debug(file));
        s
    }

    /// How many tags to display: `--tag-display-limit=<n>`.
    pub fn tag_display_limit(self, limit: u32) -> (r: Self)
        ensures
            r.arg_list() == self.arg_list().push("--tag-display-limit="@ + text::decimal_spec(limit as nat)),
    {
        let mut s = self;
        push_string(&mut s.args, cat("--tag-display-limit=", decimal(limit as u64).as_str()));
        s
    }

    /// Fail on warnings: `--fail-on=warning`.
    pub fn fail_on_warning(self) -> (r: Self)
        ensures
            r.arg_list() == self.arg_list().push("--fail-on=warning"@),
    {
        let mut s = self;
        push_str(&mut s.args, "--fail-on=warning");
        s
    }

    /// Fail on errors: `--fail-on=error`.
    pub fn fail_on_error(self) -> (r: Self)
        ensures
            r.arg_list() == self.arg_list().push("--fail-on=error"@),
    {
        let mut s = self;
        push_str(&mut s.args, "--fail-on=error");
        s
    }

    /// On the Ubuntu releases (`jammy`, `noble`), whose package format
    /// lintian reports as malformed, suppresses `malformed-deb-archive`.
    pub fn with_codename(self, codename: &str) -> (r: Self)
        ensures
            r.arg_list() == self.arg_list() + if codename@ == "jammy"@ || codename@ == "noble"@ {
                seq!["--suppress-tags"@, "malformed-deb-archive"@]
            } else {
                seq![]
            },
    {
        let mut s = self;
        let ghost before = s.arg_list();
        if str_eq(codename, "jammy") || str_eq(codename, "noble") {
            push_str(&mut s.args, "--suppress-tags");
            push_str(&mut s.args, "malformed-deb-archive");
        }
        assert(s.arg_list() =~= before + if codename@ == "jammy"@ || codename@ == "noble"@ {
                seq!["--suppress-tags"@, "malformed-deb-archive"@]
            } else {
                seq![]
            });
        s
    }
}

} // verus!
