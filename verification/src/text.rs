//! Character-level string helpers shared by the rest of the library.
use vstd::prelude::*;
use vstd::std_specs::iter::IteratorSpec;

verus! {

broadcast use vstd::string::group_string_axioms;

/// The characters of `s`, in order.
pub fn chars_of(s: &str) -> (v: Vec<char>)
    ensures
        v@ == s@,
{
    let mut v: Vec<char> = Vec::new();
    for c in it: s.chars()
        invariant
            v@ == it.seq().take(it.index() as int),
    {
        v.push(c);
    }
    v
}

/// Appends one character to a string (`String::push`).
#[verifier::external_body]
pub fn push_char(s: &mut String, c: char)
    ensures
        final(s)@ == old(s)@.push(c),
{
    s.push(c);
}

/// A new string holding the characters of `v`.
pub fn string_of(v: &Vec<char>) -> (r: String)
    ensures
        r@ == v@,
{
    let mut r = String::new();
    let mut i: usize = 0;
    while i < v.len()
        invariant
            i <= v.len(),
            r@ == v@.take(i as int),
        decreases v.len() - i,
    {
        push_char(&mut r, v[i]);
        i = i + 1;
        assert(r@ =~= v@.take(i as int));
    }
    assert(v@.take(i as int) =~= v@);
    r
}

/// An owned copy of `s`.
pub fn owned(s: &str) -> (r: String)
    ensures
        r@ == s@,
{
    s.to_owned()
}

/// The concatenation of `a` and `b`.
pub fn cat(a: &str, b: &str) -> (r: String)
    ensures
        r@ == a@ + b@,
{
    let mut r = a.to_owned();
    r.append(b);
    r
}

/// The concatenation of `a`, `b` and `c`.
pub fn cat3(a: &str, b: &str, c: &str) -> (r: String)
    ensures
        r@ == a@ + b@ + c@,
{
    let mut r = a.to_owned();
    r.append(b);
    r.append(c);
    r
}

/// The concatenation of four strings.
pub fn cat4(a: &str, b: &str, c: &str, d: &str) -> (r: String)
    ensures
        r@ == a@ + b@ + c@ + d@,
{
    let mut r = a.to_owned();
    r.append(b);
    r.append(c);
    r.append(d);
    r
}

/// The concatenation of five strings.
pub fn cat5(a: &str, b: &str, c: &str, d: &str, e: &str) -> (r: String)
    ensures
        r@ == a@ + b@ + c@ + d@ + e@,
{
    let mut r = a.to_owned();
    r.append(b);
    r.append(c);
    r.append(d);
    r.append(e);
    r
}

/// Whether two strings hold the same characters.
pub fn str_eq(a: &str, b: &str) -> (r: bool)
    ensures
        r == (a@ == b@),
{
    let x = a.to_owned();
    let y = b.to_owned();
    x == y
}

/// `p` is a prefix of `s`.
pub open spec fn starts_with_spec(s: Seq<char>, p: Seq<char>) -> bool {
    p.len() <= s.len() && s.take(p.len() as int) == p
}

/// `p` is a suffix of `s`.
pub open spec fn ends_with_spec(s: Seq<char>, p: Seq<char>) -> bool {
    p.len() <= s.len() && s.skip(s.len() - p.len()) == p
}

/// `p` occurs in `s` starting at position `i`.
pub open spec fn occurs_at(s: Seq<char>, p: Seq<char>, i: int) -> bool {
    0 <= i && i + p.len() <= s.len() && s.subrange(i, i + p.len()) == p
}

/// `p` occurs somewhere in `s`.
pub open spec fn contains_spec(s: Seq<char>, p: Seq<char>) -> bool {
    exists|i: int| occurs_at(s, p, i)
}

/// Whether `p` occurs in `v` at position `i` (executable, on character vectors).
pub fn occurs_at_exec(v: &Vec<char>, p: &Vec<char>, i: usize) -> (r: bool)
    ensures
        r == occurs_at(v@, p@, i as int),
{
    if i > v.len() || p.len() > v.len() - i {
        return false;
    }
    let mut j: usize = 0;
    while j < p.len()
        invariant
            i + p.len() <= v.len(),
            j <= p.len(),
            forall|k: int| 0 <= k < j ==> v@[i + k] == p@[k],
        decreases p.len() - j,
    {
        if v[i + j] != p[j] {
            assert(v@.subrange(i as int, i + p.len())[j as int] != p@[j as int]);
            return false;
        }
        j = j + 1;
    }
    assert(v@.subrange(i as int, i + p.len()) =~= p@);
    true
}

/// Whether `s` starts with `p`.
pub fn starts_with(s: &str, p: &str) -> (r: bool)
    ensures
        r == starts_with_spec(s@, p@),
{
    let v = chars_of(s);
    let w = chars_of(p);
    let r = occurs_at_exec(&v, &w, 0);
    assert(r == starts_with_spec(s@, p@)) by {
        if w.len() <= v.len() {
            assert(v@.subrange(0, w@.len() as int) =~= v@.take(w@.len() as int));
        }
    }
    r
}

/// Whether `s` ends with `p`.
pub fn ends_with(s: &str, p: &str) -> (r: bool)
    ensures
        r == ends_with_spec(s@, p@),
{
    let v = chars_of(s);
    let w = chars_of(p);
    if w.len() > v.len() {
        return false;
    }
    let r = occurs_at_exec(&v, &w, v.len() - w.len());
    assert(v@.subrange(v@.len() - w@.len(), v@.len() as int) =~= v@.skip(v@.len() - w@.len()));
    r
}

/// Whether `p` occurs in `s`.
pub fn contains(s: &str, p: &str) -> (r: bool)
    ensures
        r == contains_spec(s@, p@),
{
    let v = chars_of(s);
    let w = chars_of(p);
    let mut i: usize = 0;
    while i <= v.len()
        invariant
            v@ == s@,
            w@ == p@,
            forall|k: int| 0 <= k < i ==> !occurs_at(s@, p@, k),
        decreases v.len() + 1 - i,
    {
        if occurs_at_exec(&v, &w, i) {
            return true;
        }
        if i == v.len() {
            assert forall|k: int| !occurs_at(s@, p@, k) by {
                if occurs_at(s@, p@, k) {
                    assert(k <= i);
                }
            }
            return false;
        }
        i = i + 1;
    }
    false
}

/// The characters of `s` from position `start` to position `end`.
pub fn slice_of(v: &Vec<char>, start: usize, end: usize) -> (r: String)
    requires
        start <= end <= v.len(),
    ensures
        r@ == v@.subrange(start as int, end as int),
{
    let mut r = String::new();
    let mut i: usize = start;
    while i < end
        invariant
            start <= i <= end <= v.len(),
            r@ == v@.subrange(start as int, i as int),
        decreases end - i,
    {
        push_char(&mut r, v[i]);
        i = i + 1;
        assert(r@ =~= v@.subrange(start as int, i as int));
    }
    r
}

/// `s` without the prefix `p`, when `s` starts with `p` (`str::strip_prefix`).
pub fn strip_prefix(s: &str, p: &str) -> (r: Option<String>)
    ensures
        r is Some <==> starts_with_spec(s@, p@),
        r matches Some(t) ==> t@ == s@.skip(p@.len() as int),
{
    if starts_with(s, p) {
        let v = chars_of(s);
        let n = chars_of(p).len();
        let t = slice_of(&v, n, v.len());
        assert(t@ =~= s@.skip(p@.len() as int));
        Some(t)
    } else {
        None
    }
}

/// `s` without the suffix `p`, when `s` ends with `p` (`str::strip_suffix`).
pub fn strip_suffix(s: &str, p: &str) -> (r: Option<String>)
    ensures
        r is Some <==> ends_with_spec(s@, p@),
        r matches Some(t) ==> t@ == s@.take(s@.len() - p@.len()),
{
    if ends_with(s, p) {
        let v = chars_of(s);
        let n = chars_of(p).len();
        let t = slice_of(&v, 0, v.len() - n);
        assert(t@ =~= s@.take(s@.len() - p@.len()));
        Some(t)
    } else {
        None
    }
}

/// `to` inserted before every character of `s` and once at its end: what
/// replacing the empty pattern yields.
pub open spec fn interleave_spec(s: Seq<char>, to: Seq<char>) -> Seq<char>
    decreases s.len(),
{
    if s.len() == 0 {
        to
    } else {
        to + seq![s[0]] + interleave_spec(s.skip(1), to)
    }
}

/// Every non-overlapping occurrence of `from` in `s`, found from left to right,
/// replaced by `to` (`str::replace`).
pub open spec fn replace_spec(s: Seq<char>, from: Seq<char>, to: Seq<char>) -> Seq<char>
    decreases s.len(),
{
    if from.len() == 0 {
        interleave_spec(s, to)
    } else if s.len() < from.len() {
        s
    } else if s.take(from.len() as int) == from {
        to + replace_spec(s.skip(from.len() as int), from, to)
    } else {
        seq![s[0]] + replace_spec(s.skip(1), from, to)
    }
}

/// Replacing a pattern that does not occur leaves the string as it is.
pub proof fn lemma_replace_absent(s: Seq<char>, from: Seq<char>, to: Seq<char>)
    requires
        from.len() > 0,
        !contains_spec(s, from),
    ensures
        replace_spec(s, from, to) == s,
    decreases s.len(),
{
    if s.len() >= from.len() {
        assert(s.subrange(0, from.len() as int) =~= s.take(from.len() as int));
        assert(!occurs_at(s, from, 0));
        assert(!contains_spec(s.skip(1), from)) by {
            if contains_spec(s.skip(1), from) {
                let i = choose|i: int| occurs_at(s.skip(1), from, i);
                assert(s.skip(1).subrange(i, i + from.len()) =~= s.subrange(i + 1, i + 1 + from.len()));
                assert(occurs_at(s, from, i + 1));
            }
        }
        lemma_replace_absent(s.skip(1), from, to);
        assert(seq![s[0]] + s.skip(1) =~= s);
    }
}

/// A single occurrence of `from`, with nothing before it that could start
/// another and no other occurrence after it, is replaced by `to` and the
/// rest is kept.
pub proof fn lemma_replace_once(pre: Seq<char>, from: Seq<char>, post: Seq<char>, to: Seq<char>)
    requires
        from.len() > 0,
        forall|k: int| 0 <= k < pre.len() ==> #[trigger] pre[k] != from[0],
        forall|k: int| 0 <= k < post.len() ==> #[trigger] post[k] != from[0],
    ensures
        replace_spec(pre + from + post, from, to) == pre + to + post,
    decreases pre.len(),
{
    let s = pre + from + post;
    if pre.len() == 0 {
        assert(s =~= from + post);
        assert(s.take(from.len() as int) =~= from);
        assert(s.skip(from.len() as int) =~= post);
        assert(!contains_spec(post, from)) by {
            if contains_spec(post, from) {
                let i = choose|i: int| occurs_at(post, from, i);
                assert(post.subrange(i, i + from.len())[0] == post[i]);
            }
        }
        lemma_replace_absent(post, from, to);
        assert(pre + to + post =~= to + post);
    } else {
        assert(s[0] == pre[0]);
        assert(s.take(from.len() as int)[0] == s[0]);
        assert(s.take(from.len() as int) != from);
        lemma_replace_once(pre.skip(1), from, post, to);
        assert(s.skip(1) =~= pre.skip(1) + from + post);
        assert(pre + to + post =~= seq![s[0]] + (pre.skip(1) + to + post));
    }
}

/// Replacing a string by itself changes nothing.
pub proof fn lemma_replace_same(s: Seq<char>, from: Seq<char>)
    requires
        from.len() > 0,
    ensures
        replace_spec(s, from, from) == s,
    decreases s.len(),
{
    if s.len() >= from.len() {
        if s.take(from.len() as int) == from {
            lemma_replace_same(s.skip(from.len() as int), from);
            assert(s.take(from.len() as int) + s.skip(from.len() as int) =~= s);
        } else {
            lemma_replace_same(s.skip(1), from);
            assert(seq![s[0]] + s.skip(1) =~= s);
        }
    }
}

proof fn lemma_interleave_step(s: Seq<char>, to: Seq<char>, i: int)
    requires
        0 <= i < s.len(),
    ensures
        interleave_spec(s.skip(i), to) == to + seq![s[i]] + interleave_spec(s.skip(i + 1), to),
{
    assert(s.skip(i).skip(1) =~= s.skip(i + 1));
}

proof fn lemma_replace_match_step(s: Seq<char>, from: Seq<char>, to: Seq<char>, i: int)
    requires
        from.len() > 0,
        occurs_at(s, from, i),
    ensures
        replace_spec(s.skip(i), from, to) == to + replace_spec(s.skip(i + from.len()), from, to),
{
    assert(s.skip(i).take(from.len() as int) =~= s.subrange(i, i + from.len()));
    assert(s.skip(i).skip(from.len() as int) =~= s.skip(i + from.len()));
}

proof fn lemma_replace_skip_step(s: Seq<char>, from: Seq<char>, to: Seq<char>, i: int)
    requires
        from.len() > 0,
        0 <= i < s.len(),
        !occurs_at(s, from, i),
    ensures
        replace_spec(s.skip(i), from, to) == seq![s[i]] + replace_spec(s.skip(i + 1), from, to),
    decreases s.len() - i,
{
    assert(s.skip(i).skip(1) =~= s.skip(i + 1));
    if s.skip(i).len() >= from.len() {
        assert(s.skip(i).take(from.len() as int) =~= s.subrange(i, i + from.len()));
    } else {
        // too short for a match from here on: the rest is kept as it is
        assert(!contains_spec(s.skip(i), from)) by {
            if contains_spec(s.skip(i), from) {
                let k = choose|k: int| occurs_at(s.skip(i), from, k);
            }
        }
        let rest = s.skip(i + 1);
        assert(!contains_spec(rest, from)) by {
            if contains_spec(rest, from) {
                let k = choose|k: int| occurs_at(rest, from, k);
            }
        }
        lemma_replace_absent(s.skip(i), from, to);
        lemma_replace_absent(s.skip(i + 1), from, to);
        assert(seq![s[i]] + s.skip(i + 1) =~= s.skip(i));
    }
}

/// `s` with every occurrence of `from` replaced by `to` (`str::replace`).
pub fn replace_all(s: &str, from: &str, to: &str) -> (r: String)
    ensures
        r@ == replace_spec(s@, from@, to@),
{
    let v = chars_of(s);
    let w = chars_of(from);
    let mut r = String::new();
    let mut i: usize = 0;
    proof {
        assert(s@.skip(0) =~= s@);
    }
    if w.len() == 0 {
        while i < v.len()
            invariant
                v@ == s@,
                i <= v.len(),
                interleave_spec(s@, to@) == r@ + interleave_spec(s@.skip(i as int), to@),
            decreases v.len() - i,
        {
            proof {
                lemma_interleave_step(s@, to@, i as int);
            }
            r.append(to);
            push_char(&mut r, v[i]);
            i = i + 1;
        }
        assert(s@.skip(i as int) =~= Seq::<char>::empty());
        r.append(to);
        return r;
    }
    while i < v.len()
        invariant
            v@ == s@,
            w@ == from@,
            w.len() > 0,
            i <= v.len(),
            replace_spec(s@, from@, to@) == r@ + replace_spec(s@.skip(i as int), from@, to@),
        decreases v.len() - i,
    {
        if occurs_at_exec(&v, &w, i) {
            proof {
                lemma_replace_match_step(s@, from@, to@, i as int);
            }
            r.append(to);
            i = i + w.len();
        } else {
            proof {
                lemma_replace_skip_step(s@, from@, to@, i as int);
            }
            push_char(&mut r, v[i]);
            i = i + 1;
        }
    }
    assert(s@.skip(i as int) =~= Seq::<char>::empty());
    r
}

/// The first occurrence of `from` in `s`, found from the left, replaced by
/// `to` (`str::replacen` with a count of one).
pub open spec fn replace_first_spec(s: Seq<char>, from: Seq<char>, to: Seq<char>) -> Seq<char>
    decreases s.len(),
{
    if from.len() == 0 {
        to + s
    } else if s.len() < from.len() {
        s
    } else if s.take(from.len() as int) == from {
        to + s.skip(from.len() as int)
    } else {
        seq![s[0]] + replace_first_spec(s.skip(1), from, to)
    }
}

proof fn lemma_replace_first_skip(s: Seq<char>, from: Seq<char>, to: Seq<char>, i: int)
    requires
        from.len() > 0,
        0 <= i < s.len(),
        !occurs_at(s, from, i),
    ensures
        replace_first_spec(s.skip(i), from, to) == seq![s[i]] + replace_first_spec(s.skip(i + 1), from, to),
{
    assert(s.skip(i).skip(1) =~= s.skip(i + 1));
    if s.skip(i).len() >= from.len() {
        assert(s.skip(i).take(from.len() as int) =~= s.subrange(i, i + from.len()));
    } else {
        assert(replace_first_spec(s.skip(i + 1), from, to) == s.skip(i + 1));
        assert(seq![s[i]] + s.skip(i + 1) =~= s.skip(i));
    }
}

proof fn lemma_replace_first_hit(s: Seq<char>, from: Seq<char>, to: Seq<char>, i: int)
    requires
        from.len() > 0,
        occurs_at(s, from, i),
    ensures
        replace_first_spec(s.skip(i), from, to) == to + s.skip(i + from.len()),
{
    assert(s.skip(i).take(from.len() as int) =~= s.subrange(i, i + from.len()));
    assert(s.skip(i).skip(from.len() as int) =~= s.skip(i + from.len()));
}

/// `s` with the first occurrence of `from` replaced by `to`
/// (`str::replacen(from, to, 1)`).
pub fn replace_first(s: &str, from: &str, to: &str) -> (r: String)
    ensures
        r@ == replace_first_spec(s@, from@, to@),
{
    let v = chars_of(s);
    let w = chars_of(from);
    if w.len() == 0 {
        return cat(to, s);
    }
    let mut i: usize = 0;
    proof {
        assert(s@.skip(0) =~= s@);
        assert(s@.take(0) + replace_first_spec(s@.skip(0), from@, to@) =~= replace_first_spec(s@, from@, to@));
    }
    while i < v.len()
        invariant
            v@ == s@,
            w@ == from@,
            w.len() > 0,
            i <= v.len(),
            replace_first_spec(s@, from@, to@) == s@.take(i as int) + replace_first_spec(s@.skip(i as int), from@, to@),
        decreases v.len() - i,
    {
        if occurs_at_exec(&v, &w, i) {
            proof {
                lemma_replace_first_hit(s@, from@, to@, i as int);
            }
            let head = slice_of(&v, 0, i);
            let tail = slice_of(&v, i + w.len(), v.len());
            assert(head@ =~= s@.take(i as int));
            assert(tail@ =~= s@.skip(i + from@.len()));
            return cat3(head.as_str(), to, tail.as_str());
        }
        proof {
            lemma_replace_first_skip(s@, from@, to@, i as int);
            assert(s@.take(i as int) + seq![s@[i as int]] =~= s@.take(i + 1));
        }
        i = i + 1;
    }
    assert(s@.take(i as int) =~= s@);
    assert(s@.skip(i as int) =~= Seq::<char>::empty());
    owned(s)
}

/// The text of `s` before the first occurrence of `p` (`str::find`, then
/// the slice up to it); `None` when `p` does not occur.
pub open spec fn before_first(s: Seq<char>, p: Seq<char>) -> Option<Seq<char>>
    decreases s.len(),
{
    if p.len() == 0 {
        Some(Seq::<char>::empty())
    } else if s.len() < p.len() {
        None
    } else if s.take(p.len() as int) == p {
        Some(Seq::<char>::empty())
    } else {
        match before_first(s.skip(1), p) {
            Some(a) => Some(seq![s[0]] + a),
            None => None,
        }
    }
}

pub(crate) proof fn lemma_before_first_at(s: Seq<char>, p: Seq<char>, i: int)
    requires
        p.len() > 0,
        0 <= i <= s.len(),
        forall|j: int| 0 <= j < i ==> !occurs_at(s, p, j),
        i < s.len() ==> occurs_at(s, p, i),
        i == s.len() ==> !contains_spec(s, p),
    ensures
        i < s.len() ==> before_first(s, p) == Some(s.take(i)),
        i == s.len() ==> before_first(s, p) is None,
    decreases i,
{
    if s.len() < p.len() {
        if i < s.len() {
            assert(!occurs_at(s, p, i));
        }
    } else if s.take(p.len() as int) == p {
        assert(s.subrange(0, p.len() as int) =~= s.take(p.len() as int));
        assert(occurs_at(s, p, 0));
        if i == s.len() {
            assert(contains_spec(s, p));
        }
        assert(i == 0);
        assert(s.take(0) =~= Seq::<char>::empty());
    } else {
        assert(s.subrange(0, p.len() as int) =~= s.take(p.len() as int));
        assert(!occurs_at(s, p, 0));
        if i == 0 {
            if s.len() > 0 {
                assert(false);
            }
        } else {
            let t = s.skip(1);
            assert forall|j: int| 0 <= j < i - 1 implies !occurs_at(t, p, j) by {
                if occurs_at(t, p, j) {
                    assert(t.subrange(j, j + p.len()) =~= s.subrange(j + 1, j + 1 + p.len()));
                    assert(occurs_at(s, p, j + 1));
                }
            }
            if i < s.len() {
                assert(t.subrange(i - 1, i - 1 + p.len()) =~= s.subrange(i, i + p.len()));
            } else {
                assert(!contains_spec(t, p)) by {
                    if contains_spec(t, p) {
                        let j = choose|j: int| occurs_at(t, p, j);
                        assert(t.subrange(j, j + p.len()) =~= s.subrange(j + 1, j + 1 + p.len()));
                        assert(occurs_at(s, p, j + 1));
                    }
                }
            }
            lemma_before_first_at(t, p, i - 1);
            if i < s.len() {
                assert(seq![s[0]] + t.take(i - 1) =~= s.take(i));
            }
        }
    }
}

/// The text of `s` before the first occurrence of `p`, if `p` occurs.
pub fn find_before(s: &str, p: &str) -> (r: Option<String>)
    ensures
        match r {
            Some(a) => before_first(s@, p@) == Some(a@),
            None => before_first(s@, p@) is None,
        },
{
    let v = chars_of(s);
    let w = chars_of(p);
    if w.len() == 0 {
        return Some(String::new());
    }
    let mut i: usize = 0;
    while i < v.len()
        invariant
            v@ == s@,
            w@ == p@,
            w.len() > 0,
            i <= v.len(),
            forall|j: int| 0 <= j < i ==> !occurs_at(s@, p@, j),
        decreases v.len() - i,
    {
        if occurs_at_exec(&v, &w, i) {
            proof {
                lemma_before_first_at(s@, p@, i as int);
            }
            let a = slice_of(&v, 0, i);
            assert(a@ =~= s@.take(i as int));
            return Some(a);
        }
        i = i + 1;
    }
    proof {
        assert(!contains_spec(s@, p@)) by {
            if contains_spec(s@, p@) {
                let j = choose|j: int| occurs_at(s@, p@, j);
            }
        }
        lemma_before_first_at(s@, p@, i as int);
    }
    None
}

/// The characters that `Debug` prints for a path as they are: printable ASCII
/// other than the quote marks and the backslash.
pub open spec fn plain_debug_char(c: char) -> bool {
    ' ' <= c <= '~' && c != '"' && c != '\'' && c != '\\'
}

/// What `format!("{:?}", Path::new(s))` yields for the path `s`.
pub uninterp spec fn path_debug_form(s: Seq<char>) -> Seq<char>;

/// The `Debug` form of the path `s` (`<Path as Debug>::fmt`): the path in double
/// quotes, with quote marks, backslashes and unprintable characters escaped.
/// Claimed: the result is `path_debug_form(s)`, and a path made only of
/// printable ASCII other than quote marks and backslashes comes out as itself
/// in double quotes. How other characters are escaped is left unsaid.
#[verifier::external_body]
pub fn path_debug(s: &str) -> (r: String)
    ensures
        r@ == path_debug_form(s@),
        (forall|i: int| 0 <= i < s@.len() ==> plain_debug_char(#[trigger] s@[i])) ==> r@ == seq!['"'] + s@ + seq!['"'],
{
    format!("{:?}", std::path::Path::new(s))
}

/// `s` split at the first `c`: the text before it and the text after it;
/// `None` when `c` does not occur (`str::split_once`).
pub open spec fn split_first(s: Seq<char>, c: char) -> Option<(Seq<char>, Seq<char>)>
    decreases s.len(),
{
    if s.len() == 0 {
        None
    } else if s[0] == c {
        Some((Seq::<char>::empty(), s.skip(1)))
    } else {
        match split_first(s.skip(1), c) {
            Some((a, b)) => Some((seq![s[0]] + a, b)),
            None => None,
        }
    }
}

/// The first `c` in `s` is at position `i`.
pub(crate) proof fn lemma_split_first_at(s: Seq<char>, c: char, i: int)
    requires
        0 <= i < s.len(),
        s[i] == c,
        forall|j: int| 0 <= j < i ==> s[j] != c,
    ensures
        split_first(s, c) == Some((s.take(i), s.skip(i + 1))),
    decreases i,
{
    if i > 0 {
        lemma_split_first_at(s.skip(1), c, i - 1);
        assert(seq![s[0]] + s.skip(1).take(i - 1) =~= s.take(i));
        assert(s.skip(1).skip(i) =~= s.skip(i + 1));
    }
}

/// `c` does not occur in `s`.
pub(crate) proof fn lemma_split_first_none(s: Seq<char>, c: char)
    requires
        forall|j: int| 0 <= j < s.len() ==> s[j] != c,
    ensures
        split_first(s, c) is None,
    decreases s.len(),
{
    if s.len() > 0 {
        lemma_split_first_none(s.skip(1), c);
    }
}

/// The position of the first `c` in `v`, if any.
pub fn find_char(v: &Vec<char>, c: char) -> (r: Option<usize>)
    ensures
        r is None ==> (forall|j: int| 0 <= j < v@.len() ==> v@[j] != c) && split_first(v@, c) is None,
        r matches Some(i) ==> i < v@.len() && v@[i as int] == c && (forall|j: int| 0 <= j < i ==> v@[j] != c)
            && split_first(v@, c) == Some((v@.take(i as int), v@.skip(i + 1))),
{
    let mut i: usize = 0;
    while i < v.len()
        invariant
            i <= v.len(),
            forall|j: int| 0 <= j < i ==> v@[j] != c,
        decreases v.len() - i,
    {
        if v[i] == c {
            proof {
                lemma_split_first_at(v@, c, i as int);
            }
            return Some(i);
        }
        i = i + 1;
    }
    proof {
        lemma_split_first_none(v@, c);
    }
    None
}

/// `s` split at its first `c` (`str::split_once` with a character).
pub fn split_once_char(s: &str, c: char) -> (r: Option<(String, String)>)
    ensures
        match r {
            Some((a, b)) => split_first(s@, c) == Some((a@, b@)),
            None => split_first(s@, c) is None,
        },
{
    let v = chars_of(s);
    match find_char(&v, c) {
        Some(i) => {
            let a = slice_of(&v, 0, i);
            let b = slice_of(&v, i + 1, v.len());
            assert(a@ =~= v@.take(i as int));
            assert(b@ =~= v@.skip(i + 1));
            Some((a, b))
        },
        None => None,
    }
}

/// Unicode white space, as `char::is_whitespace` defines it.
pub open spec fn is_space(c: char) -> bool {
    ('\u{9}' <= c && c <= '\u{d}') || c == ' ' || c == '\u{85}' || c == '\u{a0}' || c == '\u{1680}'
        || ('\u{2000}' <= c && c <= '\u{200a}') || c == '\u{2028}' || c == '\u{2029}' || c == '\u{202f}'
        || c == '\u{205f}' || c == '\u{3000}'
}

/// Whether `c` is white space (`char::is_whitespace`).
pub fn is_space_char(c: char) -> (r: bool)
    ensures
        r == is_space(c),
{
    ('\u{9}' <= c && c <= '\u{d}') || c == ' ' || c == '\u{85}' || c == '\u{a0}' || c == '\u{1680}'
        || ('\u{2000}' <= c && c <= '\u{200a}') || c == '\u{2028}' || c == '\u{2029}' || c == '\u{202f}'
        || c == '\u{205f}' || c == '\u{3000}'
}

/// `s` holds nothing but white space: what `s.trim().is_empty()` tests.
pub open spec fn blank(s: Seq<char>) -> bool {
    forall|i: int| 0 <= i < s.len() ==> is_space(#[trigger] s[i])
}

/// Whether `s` is empty once trimmed (`s.trim().is_empty()`).
pub fn is_blank(s: &str) -> (r: bool)
    ensures
        r == blank(s@),
{
    let v = chars_of(s);
    let mut i: usize = 0;
    while i < v.len()
        invariant
            v@ == s@,
            i <= v.len(),
            forall|k: int| 0 <= k < i ==> is_space(#[trigger] s@[k]),
        decreases v.len() - i,
    {
        if !is_space_char(v[i]) {
            return false;
        }
        i = i + 1;
    }
    true
}

/// `s` without leading white space (`str::trim_start`).
pub open spec fn trim_start_spec(s: Seq<char>) -> Seq<char>
    decreases s.len(),
{
    if s.len() > 0 && is_space(s[0]) { trim_start_spec(s.skip(1)) } else { s }
}

/// `s` without trailing white space (`str::trim_end`).
pub open spec fn trim_end_spec(s: Seq<char>) -> Seq<char>
    decreases s.len(),
{
    if s.len() > 0 && is_space(s.last()) { trim_end_spec(s.drop_last()) } else { s }
}

/// `s` without leading and trailing white space (`str::trim`).
pub open spec fn trim_spec(s: Seq<char>) -> Seq<char> {
    trim_end_spec(trim_start_spec(s))
}

pub(crate) proof fn lemma_trim_start_at(s: Seq<char>, i: int)
    requires
        0 <= i <= s.len(),
        forall|k: int| 0 <= k < i ==> is_space(#[trigger] s[k]),
        i < s.len() ==> !is_space(s[i]),
    ensures
        trim_start_spec(s) == s.skip(i),
    decreases i,
{
    if i > 0 {
        lemma_trim_start_at(s.skip(1), i - 1);
        assert(s.skip(1).skip(i - 1) =~= s.skip(i));
    } else {
        assert(s.skip(0) =~= s);
    }
}

pub(crate) proof fn lemma_trim_end_at(s: Seq<char>, j: int)
    requires
        0 <= j <= s.len(),
        forall|k: int| j <= k < s.len() ==> is_space(#[trigger] s[k]),
        j > 0 ==> !is_space(s[j - 1]),
    ensures
        trim_end_spec(s) == s.take(j),
    decreases s.len() - j,
{
    if j < s.len() {
        lemma_trim_end_at(s.drop_last(), j);
        assert(s.drop_last().take(j) =~= s.take(j));
    } else {
        assert(s.take(j) =~= s);
    }
}

/// Trimming white space in front of a text that neither starts nor ends
/// with white space gives that text back.
pub(crate) proof fn lemma_trim_after_spaces(pre: Seq<char>, body: Seq<char>)
    requires
        forall|k: int| 0 <= k < pre.len() ==> is_space(#[trigger] pre[k]),
        body.len() > 0,
        !is_space(body[0]),
        !is_space(body.last()),
    ensures
        trim_spec(pre + body) == body,
{
    let s = pre + body;
    assert forall|k: int| 0 <= k < pre.len() implies is_space(#[trigger] s[k]) by {
        assert(s[k] == pre[k]);
    }
    assert(s[pre.len() as int] == body[0]);
    lemma_trim_start_at(s, pre.len() as int);
    assert(s.skip(pre.len() as int) =~= body);
    lemma_trim_end_at(body, body.len() as int);
    assert(body.take(body.len() as int) =~= body);
}

/// `s` without leading and trailing white space (`str::trim`).
pub fn trim(s: &str) -> (r: String)
    ensures
        r@ == trim_spec(s@),
{
    let v = chars_of(s);
    let mut i: usize = 0;
    while i < v.len() && is_space_char(v[i])
        invariant
            i <= v.len(),
            forall|k: int| 0 <= k < i ==> is_space(#[trigger] v@[k]),
        decreases v.len() - i,
    {
        i = i + 1;
    }
    proof {
        lemma_trim_start_at(v@, i as int);
    }
    let mut j: usize = v.len();
    while j > i && is_space_char(v[j - 1])
        invariant
            i <= j <= v.len(),
            forall|k: int| j <= k < v.len() ==> is_space(#[trigger] v@[k]),
        decreases j,
    {
        j = j - 1;
    }
    let t = slice_of(&v, i, j);
    proof {
        let rest = v@.skip(i as int);
        assert forall|k: int| (j - i) <= k < rest.len() implies is_space(#[trigger] rest[k]) by {
            assert(rest[k] == v@[i + k]);
        }
        if j > i {
            assert(rest[j - i - 1] == v@[j - 1]);
        }
        lemma_trim_end_at(rest, j - i);
        assert(rest.take(j - i) =~= v@.subrange(i as int, j as int));
    }
    t
}

/// `s` without leading and trailing `c` (`str::trim_matches` with a character).
pub open spec fn trim_char_spec(s: Seq<char>, c: char) -> Seq<char>
    decreases s.len(),
{
    if s.len() > 0 && s[0] == c {
        trim_char_spec(s.skip(1), c)
    } else if s.len() > 0 && s.last() == c {
        trim_char_spec(s.drop_last(), c)
    } else {
        s
    }
}

pub(crate) proof fn lemma_trim_char_at(s: Seq<char>, c: char, i: int, j: int)
    requires
        0 <= i <= j <= s.len(),
        forall|k: int| 0 <= k < i ==> #[trigger] s[k] == c,
        forall|k: int| j <= k < s.len() ==> #[trigger] s[k] == c,
        i < j ==> s[i] != c && s[j - 1] != c,
    ensures
        trim_char_spec(s, c) == s.subrange(i, j),
    decreases s.len(),
{
    if s.len() > 0 && s[0] == c {
        if i > 0 {
            lemma_trim_char_at(s.skip(1), c, i - 1, j - 1);
            assert(s.skip(1).subrange(i - 1, j - 1) =~= s.subrange(i, j));
        } else {
            lemma_trim_char_at(s.skip(1), c, 0, 0);
            assert(s.skip(1).subrange(0, 0) =~= s.subrange(i, j));
        }
    } else if s.len() > 0 && s.last() == c {
        if j == s.len() {
            // the last character would be kept, yet it is `c`: impossible
            assert(i == j);
            assert(s[0] == c);
        } else {
            lemma_trim_char_at(s.drop_last(), c, i, j);
            assert(s.drop_last().subrange(i, j) =~= s.subrange(i, j));
        }
    } else {
        if s.len() > 0 {
            assert(i == 0 && j == s.len());
        }
        assert(s.subrange(i, j) =~= s);
    }
}

/// `s` without leading and trailing `c` (`str::trim_matches`).
pub fn trim_char(s: &str, c: char) -> (r: String)
    ensures
        r@ == trim_char_spec(s@, c),
{
    let v = chars_of(s);
    let mut i: usize = 0;
    while i < v.len() && v[i] == c
        invariant
            i <= v.len(),
            forall|k: int| 0 <= k < i ==> #[trigger] v@[k] == c,
        decreases v.len() - i,
    {
        i = i + 1;
    }
    let mut j: usize = v.len();
    while j > i && v[j - 1] == c
        invariant
            i <= j <= v.len(),
            forall|k: int| j <= k < v.len() ==> #[trigger] v@[k] == c,
        decreases j,
    {
        j = j - 1;
    }
    proof {
        lemma_trim_char_at(v@, c, i as int, j as int);
    }
    slice_of(&v, i, j)
}

/// `s` without one trailing carriage return.
pub open spec fn strip_cr(s: Seq<char>) -> Seq<char> {
    if s.len() > 0 && s.last() == '\r' { s.drop_last() } else { s }
}

/// What comes after the first `c` is shorter than the whole.
pub proof fn lemma_split_first_shorter(s: Seq<char>, c: char)
    ensures
        split_first(s, c) matches Some((a, b)) ==> b.len() < s.len() && a.len() < s.len(),
    decreases s.len(),
{
    if s.len() > 0 && s[0] != c {
        lemma_split_first_shorter(s.skip(1), c);
    }
}

/// The lines of `s` (`str::lines`): split at `\n`, each line that ended in a
/// line feed without a carriage return before it, and no empty last line
/// after a final line feed.
pub open spec fn lines_spec(s: Seq<char>) -> Seq<Seq<char>>
    decreases s.len(),
{
    if s.len() == 0 {
        seq![]
    } else {
        match split_first(s, '\n') {
            Some((a, b)) => {
                proof {
                    lemma_split_first_shorter(s, '\n');
                }
                seq![strip_cr(a)] + lines_spec(b)
            },
            None => seq![s],
        }
    }
}

proof fn lemma_lines_step(cur: Seq<char>, rest: Seq<char>)
    requires
        !cur.contains('\n'),
        rest.len() > 0,
        rest[0] == '\n',
    ensures
        lines_spec(cur + rest) == seq![strip_cr(cur)] + lines_spec(rest.skip(1)),
{
    let s = cur + rest;
    assert forall|j: int| 0 <= j < cur.len() implies s[j] != '\n' by {
        assert(s[j] == cur[j]);
        if s[j] == '\n' {
            assert(cur.contains('\n'));
        }
    }
    lemma_split_first_at(s, '\n', cur.len() as int);
    assert(s.take(cur.len() as int) =~= cur);
    assert(s.skip(cur.len() as int + 1) =~= rest.skip(1));
}

proof fn lemma_lines_last(cur: Seq<char>)
    requires
        !cur.contains('\n'),
    ensures
        lines_spec(cur) == (if cur.len() == 0 { Seq::<Seq<char>>::empty() } else { seq![cur] }),
{
    if cur.len() > 0 {
        assert forall|j: int| 0 <= j < cur.len() implies cur[j] != '\n' by {
            if cur[j] == '\n' {
                assert(cur.contains('\n'));
            }
        }
        lemma_split_first_none(cur, '\n');
    }
}

/// The lines of `s` (`str::lines`).
pub fn lines(s: &str) -> (r: Vec<String>)
    ensures
        views(r@) == lines_spec(s@),
{
    let v = chars_of(s);
    let mut r: Vec<String> = Vec::new();
    let mut start: usize = 0;
    let mut i: usize = 0;
    proof {
        assert(v@.subrange(0, 0) + v@.skip(0) =~= v@);
        assert(views(r@) + lines_spec(s@) =~= lines_spec(s@));
        assert(!v@.subrange(0, 0).contains('\n'));
    }
    while i < v.len()
        invariant
            v@ == s@,
            start <= i <= v.len(),
            !v@.subrange(start as int, i as int).contains('\n'),
            lines_spec(s@) == views(r@) + lines_spec(v@.subrange(start as int, i as int) + v@.skip(i as int)),
        decreases v.len() - i,
    {
        let ghost cur = v@.subrange(start as int, i as int);
        if v[i] == '\n' {
            proof {
                lemma_lines_step(cur, v@.skip(i as int));
                assert(v@.skip(i as int).skip(1) =~= v@.subrange(i + 1, i + 1) + v@.skip(i + 1));
            }
            let mut end: usize = i;
            if end > start && v[end - 1] == '\r' {
                end = end - 1;
            }
            let line = slice_of(&v, start, end);
            assert(line@ =~= strip_cr(cur));
            push_string(&mut r, line);
            i = i + 1;
            start = i;
        } else {
            proof {
                assert(cur + v@.skip(i as int) =~= v@.subrange(start as int, i + 1) + v@.skip(i + 1));
                let next = v@.subrange(start as int, i + 1);
                assert(next =~= cur.push(v@[i as int]));
                if next.contains('\n') {
                    let k = choose|k: int| 0 <= k < next.len() && #[trigger] next[k] == '\n';
                    if k < cur.len() {
                        assert(cur[k] == '\n');
                        assert(cur.contains('\n'));
                    }
                }
            }
            i = i + 1;
        }
    }
    let ghost cur = v@.subrange(start as int, i as int);
    proof {
        assert(v@.skip(i as int) =~= Seq::<char>::empty());
        assert(cur + v@.skip(i as int) =~= cur);
        lemma_lines_last(cur);
    }
    let ghost before = views(r@);
    if start < i {
        let line = slice_of(&v, start, i);
        push_string(&mut r, line);
        assert(views(r@) =~= before + seq![cur]);
    } else {
        assert(views(r@) =~= before + Seq::<Seq<char>>::empty());
    }
    r
}

/// The strings of `parts` with `sep` between each two (`[String]::join`).
pub open spec fn join_spec(parts: Seq<Seq<char>>, sep: Seq<char>) -> Seq<char>
    decreases parts.len(),
{
    if parts.len() == 0 {
        Seq::<char>::empty()
    } else if parts.len() == 1 {
        parts[0]
    } else {
        join_spec(parts.drop_last(), sep) + sep + parts.last()
    }
}

/// The strings of `parts` joined with `sep` between each two.
pub fn join(parts: &[String], sep: &str) -> (r: String)
    ensures
        r@ == join_spec(views(parts@), sep@),
{
    let mut r = String::new();
    let mut i: usize = 0;
    while i < parts.len()
        invariant
            i <= parts.len(),
            r@ == join_spec(views(parts@.take(i as int)), sep@),
        decreases parts.len() - i,
    {
        proof {
            assert(views(parts@.take(i + 1)).drop_last() =~= views(parts@.take(i as int)));
        }
        if i > 0 {
            r.append(sep);
        }
        r.append(parts[i].as_str());
        i = i + 1;
    }
    assert(parts@.take(i as int) =~= parts@);
    r
}

/// A character in ASCII lower case: `A`..`Z` become `a`..`z`, everything
/// else stays.
pub open spec fn ascii_lower(c: char) -> char {
    if 'A' <= c && c <= 'Z' { ((c as u32) + 32) as char } else { c }
}

/// `s` with its ASCII letters in lower case (`str::to_ascii_lowercase`).
pub open spec fn ascii_lower_spec(s: Seq<char>) -> Seq<char> {
    s.map_values(|c: char| ascii_lower(c))
}

/// `s` with its ASCII letters in lower case.
pub fn to_ascii_lower(s: &str) -> (r: String)
    ensures
        r@ == ascii_lower_spec(s@),
{
    let v = chars_of(s);
    let mut r = String::new();
    let mut i: usize = 0;
    while i < v.len()
        invariant
            i <= v.len(),
            v@ == s@,
            r@ == ascii_lower_spec(s@.take(i as int)),
        decreases v.len() - i,
    {
        let c = v[i];
        let l = if 'A' <= c && c <= 'Z' { ((c as u32) + 32) as u8 as char } else { c };
        assert(l == ascii_lower(c)) by {
            if 'A' <= c && c <= 'Z' {
                assert((c as u32) + 32 < 256);
            }
        }
        push_char(&mut r, l);
        i = i + 1;
        assert(r@ =~= ascii_lower_spec(s@.take(i as int)));
    }
    assert(s@.take(i as int) =~= s@);
    r
}

/// The decimal digits of `n`, most significant first, without leading zeros.
pub open spec fn decimal_spec(n: nat) -> Seq<char>
    decreases n,
{
    if n < 10 {
        seq![digit_char(n)]
    } else {
        decimal_spec(n / 10) + seq![digit_char(n % 10)]
    }
}

/// The character of a decimal digit.
pub open spec fn digit_char(d: nat) -> char {
    if d == 0 { '0' } else if d == 1 { '1' } else if d == 2 { '2' } else if d == 3 { '3' }
    else if d == 4 { '4' } else if d == 5 { '5' } else if d == 6 { '6' } else if d == 7 { '7' }
    else if d == 8 { '8' } else { '9' }
}

fn digit_of(d: u64) -> (c: char)
    requires
        d < 10,
    ensures
        c == digit_char(d as nat),
{
    if d == 0 { '0' } else if d == 1 { '1' } else if d == 2 { '2' } else if d == 3 { '3' }
    else if d == 4 { '4' } else if d == 5 { '5' } else if d == 6 { '6' } else if d == 7 { '7' }
    else if d == 8 { '8' } else { '9' }
}

/// `n` written in decimal (what `format!("{}", n)` prints).
pub fn decimal(n: u64) -> (r: String)
    ensures
        r@ == decimal_spec(n as nat),
    decreases n,
{
    if n < 10 {
        let mut r = String::new();
        push_char(&mut r, digit_of(n));
        assert(r@ =~= decimal_spec(n as nat));
        r
    } else {
        let mut r = decimal(n / 10);
        push_char(&mut r, digit_of(n % 10));
        assert(r@ =~= decimal_spec(n as nat));
        r
    }
}

/// The views of a sequence of strings.
pub open spec fn views(v: Seq<String>) -> Seq<Seq<char>> {
    v.map_values(|s: String| s@)
}

/// Pushes an owned copy of `s` onto `v`.
pub fn push_str(v: &mut Vec<String>, s: &str)
    ensures
        views(final(v)@) == views(old(v)@).push(s@),
{
    v.push(s.to_owned());
    assert(views(v@) =~= views(old(v)@).push(s@));
}

/// Pushes `s` onto `v`.
pub fn push_string(v: &mut Vec<String>, s: String)
    ensures
        views(final(v)@) == views(old(v)@).push(s@),
{
    let ghost sv = s@;
    v.push(s);
    assert(views(v@) =~= views(old(v)@).push(sv));
}

/// Every string of `items` with `prefix` in front.
pub open spec fn prefixed(prefix: Seq<char>, items: Seq<Seq<char>>) -> Seq<Seq<char>> {
    items.map_values(|c: Seq<char>| prefix + c)
}

/// Appends to `v` each string of `items` with `prefix` in front.
pub fn push_prefixed(v: &mut Vec<String>, prefix: &str, items: &[String])
    ensures
        views(final(v)@) == views(old(v)@) + prefixed(prefix@, views(items@)),
{
    let mut i: usize = 0;
    while i < items.len()
        invariant
            i <= items.len(),
            views(v@) == views(old(v)@) + prefixed(prefix@, views(items@.take(i as int))),
        decreases items.len() - i,
    {
        let item = cat(prefix, items[i].as_str());
        push_string(v, item);
        i = i + 1;
        assert(prefixed(prefix@, views(items@.take(i as int))) =~= prefixed(prefix@, views(items@.take(i - 1))).push(prefix@ + items@[i - 1]@));
    }
    assert(items@.take(i as int) =~= items@);
}

/// Appends to `v` a copy of each string of `items` from position `from` up
/// to `to`.
pub fn push_range(v: &mut Vec<String>, items: &[String], from: usize, to: usize)
    requires
        from <= to <= items@.len(),
    ensures
        views(final(v)@) == views(old(v)@) + views(items@.subrange(from as int, to as int)),
{
    let mut i: usize = from;
    while i < to
        invariant
            from <= i <= to <= items@.len(),
            views(v@) == views(old(v)@) + views(items@.subrange(from as int, i as int)),
        decreases to - i,
    {
        push_str(v, items[i].as_str());
        i = i + 1;
        assert(views(items@.subrange(from as int, i as int)) =~= views(items@.subrange(from as int, i - 1)).push(items@[i - 1]@));
    }
}

/// Appends to `v` a copy of each string of `items`.
pub fn push_all(v: &mut Vec<String>, items: &[String])
    ensures
        views(final(v)@) == views(old(v)@) + views(items@),
{
    let mut i: usize = 0;
    while i < items.len()
        invariant
            i <= items.len(),
            views(v@) == views(old(v)@) + views(items@.take(i as int)),
        decreases items.len() - i,
    {
        push_str(v, items[i].as_str());
        i = i + 1;
        assert(views(items@.take(i as int)) =~= views(items@.take(i - 1)).push(items@[i - 1]@));
    }
    assert(items@.take(i as int) =~= items@);
}

} // verus!
