//! Debian changelog entries and the maintainer they are signed with.
use vstd::prelude::*;
use crate::text::{self, cat, cat3, cat5, lines, starts_with, strip_prefix, trim, trim_char};

verus! {

/// A changelog entry: the header line with package, version-revision,
/// distribution and urgency, the message as one bullet, and the signature
/// line with maintainer and date.
pub open spec fn entry_spec(
    package_name: Seq<char>,
    version: Seq<char>,
    revision: Seq<char>,
    distribution: Seq<char>,
    maintainer: Seq<char>,
    message: Seq<char>,
    date: Seq<char>,
) -> Seq<char> {
    package_name + " ("@ + version + "-"@ + revision + ") "@ + distribution + "; urgency=medium\n\n  * "@
        + message + "\n\n -- "@ + maintainer + "  "@ + date + "\n"@
}

/// A changelog entry dated `date`.
pub fn changelog_entry(
    package_name: &str,
    version: &str,
    revision: &str,
    distribution: &str,
    maintainer: &str,
    message: &str,
    date: &str,
) -> (r: String)
    ensures
        r@ == entry_spec(package_name@, version@, revision@, distribution@, maintainer@, message@, date@),
{
    let a = cat5(package_name, " (", version, "-", revision);
    let b = cat5(a.as_str(), ") ", distribution, "; urgency=medium\n\n  * ", message);
    let c = cat5(b.as_str(), "\n\n -- ", maintainer, "  ", date);
    let r = cat(c.as_str(), "\n");
    assert(r@ =~= entry_spec(package_name@, version@, revision@, distribution@, maintainer@, message@, date@));
    r
}

/// A changelog entry opens with the header line naming the package, its
/// `version-revision` in parentheses, the distribution and the urgency, and
/// closes with the signature line: ` -- `, the maintainer, two spaces and
/// the date. The message stands between them as one bullet.
pub proof fn lemma_entry_header_and_signature(
    package_name: Seq<char>,
    version: Seq<char>,
    revision: Seq<char>,
    distribution: Seq<char>,
    maintainer: Seq<char>,
    message: Seq<char>,
    date: Seq<char>,
)
    ensures
        ({
            let e = entry_spec(package_name, version, revision, distribution, maintainer, message, date);
            let header = package_name + " ("@ + version + "-"@ + revision + ") "@ + distribution
                + "; urgency=medium\n"@;
            let signature = "\n -- "@ + maintainer + "  "@ + date + "\n"@;
            &&& text::starts_with_spec(e, header)
            &&& text::ends_with_spec(e, signature)
            &&& e.subrange(header.len() as int, e.len() - signature.len()) == "\n  * "@ + message + "\n"@
        }),
{
    let e = entry_spec(package_name, version, revision, distribution, maintainer, message, date);
    let header = package_name + " ("@ + version + "-"@ + revision + ") "@ + distribution + "; urgency=medium\n"@;
    let signature = "\n -- "@ + maintainer + "  "@ + date + "\n"@;
    let middle = "\n  * "@ + message + "\n"@;
    reveal_strlit("; urgency=medium\n\n  * ");
    reveal_strlit("; urgency=medium\n");
    reveal_strlit("\n  * ");
    reveal_strlit("\n\n -- ");
    reveal_strlit("\n -- ");
    reveal_strlit("\n");
    assert(e =~= header + middle + signature);
    assert(e.take(header.len() as int) =~= header);
    assert(e.skip(e.len() - signature.len()) =~= signature);
    assert(e.subrange(header.len() as int, e.len() - signature.len()) =~= middle);
}

/// The shape of a changelog date in UTC: a three-letter weekday and a
/// comma, and the offset `+0000` at the end.
pub open spec fn utc_date_shaped(d: Seq<char>) -> bool {
    &&& d.len() >= 11
    &&& d.subrange(3, 5) == ", "@
    &&& d.subrange(d.len() - 6, d.len() as int) == " +0000"@
}

/// The current UTC time as a changelog date, such as
/// `Mon, 01 Jan 2024 00:00:00 +0000` (`chrono::Utc::now` formatted with
/// `%a, %d %b %Y %H:%M:%S %z`). Claimed: the shape of the text (`%a` is a
/// three-letter weekday; `%z` of a zero offset is `+0000`); the time itself
/// depends on the clock and is not claimed.
#[verifier::external_body]
fn changelog_date() -> (r: String)
    ensures
        utc_date_shaped(r@),
{
    chrono::Utc::now().format("%a, %d %b %Y %H:%M:%S %z").to_string()
}

/// A new changelog entry dated now.
pub fn new_changelog_entry(
    package_name: &str,
    version: &str,
    revision: &str,
    distribution: &str,
    maintainer: &str,
    message: &str,
) -> (r: String)
    ensures
        exists|date: Seq<char>| utc_date_shaped(date)
            && r@ == entry_spec(package_name@, version@, revision@, distribution@, maintainer@, message@, date),
{
    let date = changelog_date();
    changelog_entry(package_name, version, revision, distribution, maintainer, message, date.as_str())
}

/// A changelog with a new entry on top: the entry alone when there was no
/// changelog, else the entry, a blank line and the old changelog.
pub open spec fn prepended_spec(entry: Seq<char>, existing: Seq<char>) -> Seq<char> {
    if existing.len() == 0 { entry } else { entry + "\n"@ + existing }
}

/// The changelog `existing` with `entry` prepended.
pub fn prepend_entry(entry: &str, existing: &str) -> (r: String)
    ensures
        r@ == prepended_spec(entry@, existing@),
{
    if text::chars_of(existing).len() == 0 {
        text::owned(entry)
    } else {
        cat3(entry, "\n", existing)
    }
}

/// The maintainer a specification file names: on the first line that,
/// trimmed, starts with `maintainer`, the value after `:` or `=`, trimmed
/// and stripped of double then single quotes. A line with neither `:` nor
/// `=` ends the search with nothing; an empty value moves on to the next
/// line.
pub open spec fn maintainer_in(ls: Seq<Seq<char>>) -> Option<Seq<char>>
    decreases ls.len(),
{
    if ls.len() == 0 {
        None
    } else {
        let t = text::trim_spec(ls[0]);
        if text::starts_with_spec(t, "maintainer"@) {
            let rest = text::trim_spec(t.skip("maintainer"@.len() as int));
            if text::starts_with_spec(rest, ":"@) || text::starts_with_spec(rest, "="@) {
                let v = text::trim_char_spec(text::trim_char_spec(text::trim_spec(rest.skip(1)), '"'), '\'');
                if v.len() > 0 { Some(v) } else { maintainer_in(ls.skip(1)) }
            } else {
                None
            }
        } else {
            maintainer_in(ls.skip(1))
        }
    }
}

/// The maintainer named in the text of a specification file, such as
/// `Test User <test@example.com>` for a line
/// `maintainer: "Test User <test@example.com>"`.
pub fn maintainer_from_sss(content: &str) -> (r: Option<String>)
    ensures
        match r {
            Some(m) => maintainer_in(text::lines_spec(content@)) == Some(m@),
            None => maintainer_in(text::lines_spec(content@)) is None,
        },
{
    let ls = lines(content);
    let mut i: usize = 0;
    proof {
        assert(text::views(ls@).skip(0) =~= text::views(ls@));
    }
    while i < ls.len()
        invariant
            i <= ls.len(),
            text::views(ls@) == text::lines_spec(content@),
            maintainer_in(text::lines_spec(content@)) == maintainer_in(text::views(ls@).skip(i as int)),
        decreases ls.len() - i,
    {
        let ghost rest_lines = text::views(ls@).skip(i as int);
        proof {
            reveal_strlit(":");
            reveal_strlit("=");
            assert(rest_lines[0] == ls@[i as int]@);
            assert(rest_lines.skip(1) =~= text::views(ls@).skip(i + 1));
        }
        let t = trim(ls[i].as_str());
        match strip_prefix(t.as_str(), "maintainer") {
            Some(after) => {
                let rest = trim(after.as_str());
                let value = if starts_with(rest.as_str(), ":") || starts_with(rest.as_str(), "=") {
                    let v = text::chars_of(rest.as_str());
                    let tail = text::slice_of(&v, 1, v.len());
                    assert(tail@ =~= rest@.skip(1));
                    let inner = trim(tail.as_str());
                    let unquoted = trim_char(inner.as_str(), '"');
                    trim_char(unquoted.as_str(), '\'')
                } else {
                    return None;
                };
                if text::chars_of(value.as_str()).len() > 0 {
                    return Some(value);
                }
            },
            None => {},
        }
        i = i + 1;
    }
    None
}

/// A `maintainer` line gives back exactly the value between its quotes,
/// whichever separator it uses (`maintainer: "V"` or `maintainer = "V"`)
/// and whichever quote (double or single) encloses the value: the
/// signature never keeps a quote around the name.
pub proof fn lemma_quoted_maintainer(
    gap1: Seq<char>,
    sep: char,
    gap2: Seq<char>,
    quote: char,
    v: Seq<char>,
    more: Seq<Seq<char>>,
)
    requires
        sep == ':' || sep == '=',
        quote == '"' || quote == '\'',
        forall|k: int| 0 <= k < gap1.len() ==> text::is_space(#[trigger] gap1[k]),
        forall|k: int| 0 <= k < gap2.len() ==> text::is_space(#[trigger] gap2[k]),
        v.len() > 0,
        v[0] != '"' && v[0] != '\'',
        v.last() != '"' && v.last() != '\'',
    ensures
        maintainer_in(
            seq!["maintainer"@ + gap1 + seq![sep] + gap2 + seq![quote] + v + seq![quote]] + more,
        ) == Some(v),
{
    reveal_strlit("maintainer");
    reveal_strlit(":");
    reveal_strlit("=");
    let w = seq![quote] + v + seq![quote];
    let rest_raw = gap2 + w;
    let after_key = gap1 + (seq![sep] + rest_raw);
    let line = "maintainer"@ + after_key;
    assert(line =~= "maintainer"@ + gap1 + seq![sep] + gap2 + seq![quote] + v + seq![quote]);
    let ls = seq![line] + more;
    assert(ls[0] == line);
    // the line is already trimmed
    text::lemma_trim_after_spaces(Seq::<char>::empty(), line);
    assert(Seq::<char>::empty() + line =~= line);
    let t = text::trim_spec(line);
    assert(t == line);
    assert(t.take(10) =~= "maintainer"@);
    assert(t.skip(10) =~= after_key);
    // after the key: spaces, then the separator
    text::lemma_trim_after_spaces(gap1, seq![sep] + rest_raw);
    let rest = text::trim_spec(after_key);
    assert(rest == seq![sep] + rest_raw);
    assert(rest.take(1) =~= seq![sep]);
    if sep == ':' {
        assert(":"@ =~= seq![sep]);
        assert(text::starts_with_spec(rest, ":"@));
    } else {
        assert("="@ =~= seq![sep]);
        assert(text::starts_with_spec(rest, "="@));
    }
    assert(rest.skip(1) =~= rest_raw);
    // after the separator: spaces, then the quoted value
    text::lemma_trim_after_spaces(gap2, w);
    assert(text::trim_spec(rest.skip(1)) == w);
    let n = w.len() as int;
    assert(w[0] == quote && w[n - 1] == quote);
    assert(w.subrange(1, n - 1) =~= v);
    if quote == '"' {
        text::lemma_trim_char_at(w, '"', 1, n - 1);
        assert(text::trim_char_spec(w, '"') == v);
        text::lemma_trim_char_at(v, '\'', 0, v.len() as int);
        assert(v.subrange(0, v.len() as int) =~= v);
    } else {
        text::lemma_trim_char_at(w, '"', 0, n);
        assert(w.subrange(0, n) =~= w);
        text::lemma_trim_char_at(w, '\'', 1, n - 1);
    }
    assert(text::trim_char_spec(text::trim_char_spec(w, '"'), '\'') == v);
}

/// After prepending, the changelog starts with the new entry and ends
/// with the old changelog: nothing of the old one is lost.
pub proof fn lemma_prepend_keeps_history(entry: Seq<char>, existing: Seq<char>)
    ensures
        text::starts_with_spec(prepended_spec(entry, existing), entry),
        text::ends_with_spec(prepended_spec(entry, existing), existing),
{
    let r = prepended_spec(entry, existing);
    if existing.len() == 0 {
        assert(r.take(entry.len() as int) =~= entry);
        assert(r.skip(r.len() - 0) =~= existing);
    } else {
        assert(r.take(entry.len() as int) =~= entry);
        assert(r.skip(r.len() - existing.len()) =~= existing);
    }
}

} // verus!
