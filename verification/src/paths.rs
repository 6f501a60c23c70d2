//! Path strings: joining, parents and home-directory expansion.
use vstd::prelude::*;
use crate::text::{cat, cat3, chars_of, owned};

verus! {

/// `name` appended to `base` the way `Path::join` does on Unix: an absolute
/// `name` replaces `base`; otherwise a `/` separates them unless `base` is
/// empty or already ends in one.
pub open spec fn join_spec(base: Seq<char>, name: Seq<char>) -> Seq<char> {
    if name.len() > 0 && name[0] == '/' {
        name
    } else if base.len() == 0 || base[base.len() - 1] == '/' {
        base + name
    } else {
        base + seq!['/'] + name
    }
}

/// `base` joined with `name` (`Path::join`).
pub fn path_join(base: &str, name: &str) -> (r: String)
    ensures
        r@ == join_spec(base@, name@),
{
    let b = chars_of(base);
    let n = chars_of(name);
    if n.len() > 0 && n[0] == '/' {
        owned(name)
    } else if b.len() == 0 || b[b.len() - 1] == '/' {
        cat(base, name)
    } else {
        proof {
            reveal_strlit("/");
        }
        cat3(base, "/", name)
    }
}

/// Joining a name and then appending a suffix is joining the longer name.
pub proof fn lemma_join_append(base: Seq<char>, name: Seq<char>, suffix: Seq<char>)
    requires
        name.len() > 0,
    ensures
        join_spec(base, name + suffix) == join_spec(base, name) + suffix,
{
    assert((name + suffix)[0] == name[0]);
    assert(base + (name + suffix) =~= base + name + suffix);
    assert(base + seq!['/'] + (name + suffix) =~= base + seq!['/'] + name + suffix);
}

/// A path with a parent: one that is not empty and not made of `/` alone.
pub open spec fn has_parent(s: Seq<char>) -> bool {
    exists|i: int| 0 <= i < s.len() && s[i] != '/'
}

/// Whether a path has a parent.
pub fn path_has_parent(s: &str) -> (r: bool)
    ensures
        r == has_parent(s@),
{
    let v = chars_of(s);
    let mut i: usize = 0;
    while i < v.len()
        invariant
            i <= v.len(),
            v@ == s@,
            forall|j: int| 0 <= j < i ==> v@[j] == '/',
        decreases v.len() - i,
    {
        if v[i] != '/' {
            return true;
        }
        i = i + 1;
    }
    false
}

/// What `PathBuf::pop` leaves of the path `s`.
pub uninterp spec fn popped_path(s: Seq<char>) -> Seq<char>;

/// A directory part made of plain components: not empty, no empty
/// component (no `//`, no trailing `/`) and no `.` component.
pub open spec fn plain_dir(d: Seq<char>) -> bool {
    &&& d.len() > 0
    &&& d[d.len() - 1] != '/'
    &&& forall|i: int| 0 <= i < d.len() - 1 && d[i] == '/' ==> #[trigger] d[i + 1] != '/'
    &&& forall|i: int| 0 <= i < d.len() && #[trigger] d[i] == '.' ==>
            !((i == 0 || d[i - 1] == '/') && (i + 1 == d.len() || d[i + 1] == '/'))
}

/// The path `s` without its last component (`PathBuf::pop`, then the path as a
/// string). Claimed: the result is `popped_path(s)`, and a path `d/f` whose
/// last part `f` is a plain name (not empty, no `/`, not `.` or `..`) and
/// whose `d` is made of plain components pops to `d` (`Path::parent`: the
/// path without its final component). Other cases (repeated or trailing
/// separators, `.` components, the root) are left unsaid.
#[verifier::external_body]
pub fn pop_path(s: &str) -> (r: String)
    ensures
        r@ == popped_path(s@),
        forall|d: Seq<char>, f: Seq<char>|
            #![trigger d + seq!['/'] + f]
            s@ == d + seq!['/'] + f && plain_dir(d) && f.len() > 0
                && !f.contains('/') && f != seq!['.'] && f != seq!['.', '.'] ==> r@ == d,
{
    let mut p = std::path::PathBuf::from(s);
    p.pop();
    p.to_string_lossy().to_string()
}

/// Claimed of `shellexpand::tilde`: a path that does not start with `~`, or
/// starts with `~` followed by something other than `/`, is left as it is; a
/// path `~` or `~/...` becomes the home directory followed by the rest of the
/// path, or is left as it is when no home directory is known.
pub open spec fn tilde_expanded(s: Seq<char>, r: Seq<char>) -> bool {
    if s.len() > 0 && s[0] == '~' && (s.len() == 1 || s[1] == '/') {
        r == s || exists|home: Seq<char>| r == home + s.skip(1)
    } else {
        r == s
    }
}

/// Expands a leading `~` to the home directory (`shellexpand::tilde`). Which
/// home directory comes back depends on the environment; only the shape of
/// the result (`tilde_expanded`) is claimed.
#[verifier::external_body]
pub fn tilde(s: &str) -> (r: String)
    ensures
        tilde_expanded(s@, r@),
{
    shellexpand::tilde(s).to_string()
}

} // verus!
