//! Version and hash substitution in the files of a package directory.
use vstd::prelude::*;
use crate::text::{self, cat, replace_all, starts_with, str_eq};

verus! {

/// Substitutions to apply across the files of the package directory.
pub struct FileSubstitutions {
    pub old_version: String,
    pub new_version: String,
    pub old_hash: Option<String>,
    pub new_hash: Option<String>,
    pub old_tag: Option<String>,
    pub new_tag: Option<String>,
    pub old_commit: Option<String>,
    pub new_commit: Option<String>,
}

/// The characters `regex::escape` puts a backslash before
/// (`regex_syntax::is_meta_character`).
pub open spec fn is_meta_character(c: char) -> bool {
    c == '\\' || c == '.' || c == '+' || c == '*' || c == '?' || c == '(' || c == ')' || c == '|'
        || c == '[' || c == ']' || c == '{' || c == '}' || c == '^' || c == '$' || c == '#'
        || c == '&' || c == '-' || c == '~'
}

/// `s` with a backslash before each meta character.
pub open spec fn regex_escaped(s: Seq<char>) -> Seq<char>
    decreases s.len(),
{
    if s.len() == 0 {
        Seq::<char>::empty()
    } else {
        let c = s.last();
        regex_escaped(s.drop_last()) + if is_meta_character(c) { seq!['\\', c] } else { seq![c] }
    }
}

/// `s` with every regex metacharacter escaped (`regex::escape`, which goes
/// through `regex_syntax::escape_into`). Claimed: each meta character gets
/// a backslash before it and every other character is kept.
#[verifier::external_body]
fn escape_regex(s: &str) -> (r: String)
    ensures
        r@ == regex_escaped(s@),
{
    regex::escape(s)
}

/// Whether a pattern compiles (`regex::Regex::new` succeeds). Claimed: a
/// pattern that starts with a negative look-behind, `(?<!`, never does: the
/// crate's parser has no look-around. Which other patterns compile is left
/// unsaid.
#[verifier::external_body]
fn regex_compiles(p: &str) -> (r: bool)
    ensures
        text::starts_with_spec(p@, "(?<!"@) ==> !r,
{
    match regex::Regex::new(p) {
        Ok(_) => true,
        Err(_) => false,
    }
}

/// `content` with `old` replaced by `new`: nothing changes when the two are
/// equal or `old` is empty; otherwise every occurrence is replaced, since
/// the look-behind pattern meant to keep matches to word boundaries is
/// refused by the regex engine and the plain replacement is what runs.
pub open spec fn boundary_replaced(content: Seq<char>, old: Seq<char>, new: Seq<char>) -> Seq<char> {
    if old == new || old.len() == 0 {
        content
    } else {
        text::replace_spec(content, old, new)
    }
}

/// Replaces `old` by `new` in `content`. A pattern that would only match
/// where `old` is not preceded by `.`, `-` or a word character is tried
/// first; the regex engine refuses it, and every occurrence is replaced.
pub fn replace_with_boundaries(content: &str, old: &str, new: &str) -> (r: String)
    ensures
        r@ == boundary_replaced(content@, old@, new@),
{
    if str_eq(old, new) || text::chars_of(old).len() == 0 {
        return text::owned(content);
    }
    let escaped = escape_regex(old);
    let pattern = cat("(?<![.\\w-])", escaped.as_str());
    proof {
        reveal_strlit("(?<![.\\w-])");
        reveal_strlit("(?<!");
        assert(pattern@.take(4) =~= "(?<!"@);
    }
    let compiles = regex_compiles(pattern.as_str());
    // The look-behind pattern is refused, so the plain replacement runs.
    assert(!compiles);
    replace_all(content, old, new)
}

/// One pair of optional substitutions applied with `f` when both sides are
/// given and differ.
pub open spec fn optional_replaced(content: Seq<char>, old: Option<String>, new: Option<String>, boundaries: bool) -> Seq<char> {
    match (old, new) {
        (Some(o), Some(n)) => if o@ != n@ {
            if boundaries { boundary_replaced(content, o@, n@) } else { text::replace_spec(content, o@, n@) }
        } else {
            content
        },
        _ => content,
    }
}

/// All substitutions of `subs` applied to `content`, in order: the version
/// (at word boundaries), the hash, the tag (at word boundaries), the commit.
pub open spec fn substituted(content: Seq<char>, subs: FileSubstitutions) -> Seq<char> {
    let a = boundary_replaced(content, subs.old_version@, subs.new_version@);
    let b = optional_replaced(a, subs.old_hash, subs.new_hash, false);
    let c = optional_replaced(b, subs.old_tag, subs.new_tag, true);
    optional_replaced(c, subs.old_commit, subs.new_commit, false)
}

fn replace_optional(content: String, old: &Option<String>, new: &Option<String>, boundaries: bool) -> (r: String)
    ensures
        r@ == optional_replaced(content@, *old, *new, boundaries),
{
    match (old, new) {
        (Some(o), Some(n)) => {
            if !str_eq(o.as_str(), n.as_str()) {
                if boundaries {
                    replace_with_boundaries(content.as_str(), o.as_str(), n.as_str())
                } else {
                    replace_all(content.as_str(), o.as_str(), n.as_str())
                }
            } else {
                content
            }
        },
        _ => content,
    }
}

/// `content` with all the substitutions applied.
pub fn substitute_content(content: &str, subs: &FileSubstitutions) -> (r: String)
    ensures
        r@ == substituted(content@, *subs),
{
    let a = replace_with_boundaries(content, subs.old_version.as_str(), subs.new_version.as_str());
    let b = replace_optional(a, &subs.old_hash, &subs.new_hash, false);
    let c = replace_optional(b, &subs.old_tag, &subs.new_tag, true);
    replace_optional(c, &subs.old_commit, &subs.new_commit, false)
}

/// Substituting a version by itself, with no other substitution, leaves
/// every file as it is.
pub proof fn lemma_same_version_is_identity(content: Seq<char>, subs: FileSubstitutions)
    requires
        subs.old_version@ == subs.new_version@,
        subs.old_hash is None,
        subs.old_tag is None,
        subs.old_commit is None,
    ensures
        substituted(content, subs) == content,
{
}

/// The old version where it stands in a file is replaced by the new one,
/// and the text around it is kept: `<pre><old><post>` becomes
/// `<pre><new><post>` (with nothing before or after that could begin
/// another occurrence).
pub proof fn lemma_version_is_replaced(pre: Seq<char>, post: Seq<char>, subs: FileSubstitutions)
    requires
        subs.old_version@.len() > 0,
        subs.old_version@ != subs.new_version@,
        forall|k: int| 0 <= k < pre.len() ==> #[trigger] pre[k] != subs.old_version@[0],
        forall|k: int| 0 <= k < post.len() ==> #[trigger] post[k] != subs.old_version@[0],
        subs.old_hash is None,
        subs.old_tag is None,
        subs.old_commit is None,
    ensures
        substituted(pre + subs.old_version@ + post, subs) == pre + subs.new_version@ + post,
{
    text::lemma_replace_once(pre, subs.old_version@, post, subs.new_version@);
}

/// Replacing a version that does not occur in a file leaves it as it is.
pub proof fn lemma_absent_version_is_identity(content: Seq<char>, subs: FileSubstitutions)
    requires
        !text::contains_spec(content, subs.old_version@),
        subs.old_hash is None,
        subs.old_tag is None,
        subs.old_commit is None,
    ensures
        substituted(content, subs) == content,
{
    if subs.old_version@.len() > 0 && subs.old_version@ != subs.new_version@ {
        text::lemma_replace_absent(content, subs.old_version@, subs.new_version@);
    }
}

/// The files the substitution never touches.
pub open spec fn skipped_file(name: Seq<char>) -> bool {
    name == "pkg-builder.toml"@ || name == "pkg-builder-verify.toml"@
}

/// Whether a file is one the substitution never touches: the package's
/// own configuration files.
pub fn is_skipped_file(name: &str) -> (r: bool)
    ensures
        r == skipped_file(name@),
{
    str_eq(name, "pkg-builder.toml") || str_eq(name, "pkg-builder-verify.toml")
}

/// Whether a directory is hidden (its name starts with `.`); hidden
/// directories are not walked.
pub fn is_hidden_dir(name: &str) -> (r: bool)
    ensures
        r == text::starts_with_spec(name@, "."@),
{
    starts_with(name, ".")
}

/// A file is binary when a zero byte occurs in its first 512 bytes.
pub open spec fn binary_content(content: Seq<u8>) -> bool {
    exists|i: int| 0 <= i < content.len() && i < 512 && content[i] == 0
}

/// Whether file content is binary: a zero byte among its first 512 bytes.
pub fn is_binary(content: &[u8]) -> (r: bool)
    ensures
        r == binary_content(content@),
{
    let n: usize = if content.len() < 512 { content.len() } else { 512 };
    let mut i: usize = 0;
    while i < n
        invariant
            n <= content.len(),
            n <= 512,
            i <= n,
            forall|k: int| 0 <= k < i ==> content@[k] != 0,
        decreases n - i,
    {
        if content[i] == 0 {
            return true;
        }
        i = i + 1;
    }
    false
}

} // verus!
