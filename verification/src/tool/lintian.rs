//! lintian: checking a built package against Debian policy.
use vstd::prelude::*;
use crate::config::{self, Distribution};
use crate::text::{self, path_debug, push_all, push_str, push_string};

verus! {

/// A lintian run on the packages described by a `.changes` file.
pub struct Lintian<'a> {
    pub changes_file: &'a str,
    pub distribution: &'a Distribution,
}

/// `--suppress-tags <tag>` for each tag, in order.
pub open spec fn suppress_args(tags: Seq<Seq<char>>) -> Seq<Seq<char>>
    decreases tags.len(),
{
    if tags.len() == 0 {
        seq![]
    } else {
        seq!["--suppress-tags"@, tags[0]] + suppress_args(tags.skip(1))
    }
}

/// The arguments of a lintian run.
pub open spec fn lintian_args(d: Distribution, changes_file: Seq<char>) -> Seq<Seq<char>> {
    suppress_args(seq!["bad-distribution-in-changes-file"@, "debug-file-with-no-debug-symbols"@])
        + suppress_args(config::lintian_suppressions_of(d))
        + seq![
            "-i"@,
            "-I"@,
            text::path_debug_form(changes_file),
            "--tag-display-limit=0"@,
            "--fail-on=warning"@,
            "--fail-on=error"@,
        ]
}

proof fn lemma_suppress_push(tags: Seq<Seq<char>>, t: Seq<char>)
    ensures
        suppress_args(tags.push(t)) == suppress_args(tags) + seq!["--suppress-tags"@, t],
    decreases tags.len(),
{
    if tags.len() == 0 {
        assert(tags.push(t).skip(1) =~= Seq::<Seq<char>>::empty());
        assert(suppress_args(tags.push(t).skip(1)) == Seq::<Seq<char>>::empty());
        assert(suppress_args(tags.push(t)) =~= seq!["--suppress-tags"@, t]);
    } else {
        lemma_suppress_push(tags.skip(1), t);
        assert(tags.push(t).skip(1) =~= tags.skip(1).push(t));
        assert(suppress_args(tags.push(t)) =~= suppress_args(tags) + seq!["--suppress-tags"@, t]);
    }
}

proof fn lemma_suppress_args_shape(tags: Seq<Seq<char>>)
    ensures
        suppress_args(tags).len() == 2 * tags.len(),
        forall|i: int| 0 <= i < tags.len()
            ==> suppress_args(tags).subrange(2 * i, 2 * i + 2) == seq!["--suppress-tags"@, #[trigger] tags[i]],
    decreases tags.len(),
{
    if tags.len() > 0 {
        lemma_suppress_args_shape(tags.skip(1));
        let r = suppress_args(tags);
        let t = suppress_args(tags.skip(1));
        let head = seq!["--suppress-tags"@, tags[0]];
        assert(r == head + t);
        assert forall|i: int| 0 <= i < tags.len()
            implies r.subrange(2 * i, 2 * i + 2) == seq!["--suppress-tags"@, #[trigger] tags[i]] by {
            if i > 0 {
                assert(tags.skip(1)[i - 1] == tags[i]);
                assert(t.subrange(2 * (i - 1), 2 * (i - 1) + 2) == seq!["--suppress-tags"@, tags.skip(1)[i - 1]]);
                assert(r.subrange(2 * i, 2 * i + 2) =~= t.subrange(2 * (i - 1), 2 * (i - 1) + 2));
            } else {
                assert(r.subrange(0, 2) =~= head);
            }
        }
    }
}

/// lintian suppresses the two standard tags and then each of the
/// distribution's own tags, every tag right after `--suppress-tags`, in
/// order; after them come `-i`, `-I`, the changes file, no display limit,
/// and failure on warnings and errors, in that order and last.
pub proof fn lemma_lintian_suppresses_each_tag(d: Distribution, changes_file: Seq<char>)
    ensures
        ({
            let a = lintian_args(d, changes_file);
            let tags = config::lintian_suppressions_of(d);
            &&& a.len() == 4 + 2 * tags.len() + 6
            &&& a.take(4) == seq![
                "--suppress-tags"@,
                "bad-distribution-in-changes-file"@,
                "--suppress-tags"@,
                "debug-file-with-no-debug-symbols"@,
            ]
            &&& forall|i: int| 0 <= i < tags.len()
                ==> a.subrange(4 + 2 * i, 4 + 2 * i + 2) == seq!["--suppress-tags"@, #[trigger] tags[i]]
            &&& a.skip(a.len() - 6) == seq![
                "-i"@,
                "-I"@,
                text::path_debug_form(changes_file),
                "--tag-display-limit=0"@,
                "--fail-on=warning"@,
                "--fail-on=error"@,
            ]
        }),
{
    let std_tags = seq!["bad-distribution-in-changes-file"@, "debug-file-with-no-debug-symbols"@];
    let tags = config::lintian_suppressions_of(d);
    lemma_suppress_args_shape(std_tags);
    lemma_suppress_args_shape(tags);
    let a = lintian_args(d, changes_file);
    let s1 = suppress_args(std_tags);
    let s2 = suppress_args(tags);
    let tail = seq![
        "-i"@,
        "-I"@,
        text::path_debug_form(changes_file),
        "--tag-display-limit=0"@,
        "--fail-on=warning"@,
        "--fail-on=error"@,
    ];
    assert(a == s1 + s2 + tail);
    assert(s1.subrange(0, 2) == seq!["--suppress-tags"@, std_tags[0]]);
    assert(s1.subrange(2, 4) == seq!["--suppress-tags"@, std_tags[1]]);
    assert(a.take(4) =~= s1);
    assert(s1 =~= seq![
        "--suppress-tags"@,
        "bad-distribution-in-changes-file"@,
        "--suppress-tags"@,
        "debug-file-with-no-debug-symbols"@,
    ]) by {
        assert(s1[0] == s1.subrange(0, 2)[0]);
        assert(s1[1] == s1.subrange(0, 2)[1]);
        assert(s1[2] == s1.subrange(2, 4)[0]);
        assert(s1[3] == s1.subrange(2, 4)[1]);
    }
    assert forall|i: int| 0 <= i < tags.len()
        implies a.subrange(4 + 2 * i, 4 + 2 * i + 2) == seq!["--suppress-tags"@, #[trigger] tags[i]] by {
        assert(s2.subrange(2 * i, 2 * i + 2) == seq!["--suppress-tags"@, tags[i]]);
        assert(a.subrange(4 + 2 * i, 4 + 2 * i + 2) =~= s2.subrange(2 * i, 2 * i + 2));
    }
    assert(a.skip(a.len() - 6) =~= tail);
}

/// Appends `--suppress-tags <tag>` to `args` for each of `tags`.
fn push_suppressions(args: &mut Vec<String>, tags: &[String])
    ensures
        text::views(final(args)@) == text::views(old(args)@) + suppress_args(text::views(tags@)),
{
    let mut i: usize = 0;
    while i < tags.len()
        invariant
            i <= tags.len(),
            text::views(args@) == text::views(old(args)@) + suppress_args(text::views(tags@.take(i as int))),
        decreases tags.len() - i,
    {
        push_str(args, "--suppress-tags");
        push_str(args, tags[i].as_str());
        proof {
            assert(text::views(tags@.take(i + 1)) =~= text::views(tags@.take(i as int)).push(tags@[i as int]@));
            lemma_suppress_push(text::views(tags@.take(i as int)), tags@[i as int]@);
        }
        i = i + 1;
    }
    assert(tags@.take(i as int) =~= tags@);
}

impl Lintian<'_> {
    /// The arguments lintian is run with: the standard tag suppressions, the
    /// distribution's own, informational and pedantic output, the changes
    /// file (in its `Debug` form), no display limit, and failure on warnings
    /// and errors.
    pub fn build_args(&self) -> (r: Vec<String>)
        ensures
            text::views(r@) == lintian_args(*self.distribution, self.changes_file@),
    {
        let mut args: Vec<String> = Vec::new();
        let mut standard: Vec<String> = Vec::new();
        push_str(&mut standard, "bad-distribution-in-changes-file");
        push_str(&mut standard, "debug-file-with-no-debug-symbols");
        push_suppressions(&mut args, standard.as_slice());
        let extra = self.distribution.lintian_suppressions();
        push_suppressions(&mut args, extra.as_slice());
        let mut tail: Vec<String> = Vec::new();
        push_str(&mut tail, "-i");
        push_str(&mut tail, "-I");
        push_string(&mut tail, path_debug(self.changes_file));
        push_str(&mut tail, "--tag-display-limit=0");
        push_str(&mut tail, "--fail-on=warning");
        push_str(&mut tail, "--fail-on=error");
        push_all(&mut args, tail.as_slice());
        assert(text::views(standard@) =~= seq!["bad-distribution-in-changes-file"@, "debug-file-with-no-debug-symbols"@]);
        assert(text::views(args@) =~= lintian_args(*self.distribution, self.changes_file@));
        args
    }
}

} // verus!
