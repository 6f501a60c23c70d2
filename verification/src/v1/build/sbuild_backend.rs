//! The tool versions the sbuild backend expects: how a tool is asked for
//! its version, how the answer is read, and how it compares.
use vstd::prelude::*;
use crate::v1::build::dir_setup::{self, hex};
use sha1::Digest;
use crate::text::{self, cat, chars_of, find_before, is_space_char, owned, push_str, replace_all, slice_of, str_eq, trim};

verus! {

#[verifier::external_type_specification]
#[verifier::external_body]
pub struct ExSemverVersion(cargo_metadata::semver::Version);

/// A parsed semantic version, with the text it was parsed from.
pub struct ParsedVersion {
    version: cargo_metadata::semver::Version,
    text: Ghost<Seq<char>>,
}

impl ParsedVersion {
    /// The text the version was parsed from.
    pub closed spec fn source_text(&self) -> Seq<char> {
        self.text@
    }
}

/// Why `semver::Version::parse` refuses a text (its error message), or
/// `None` when it accepts it.
pub uninterp spec fn semver_parse_error(s: Seq<char>) -> Option<Seq<char>>;

/// Parses a semantic version (`semver::Version::parse`, as re-exported by
/// `cargo_metadata`). Claimed: parsing fails exactly when
/// `semver_parse_error(s)` names an error, and then with that message; a
/// parsed version remembers its text. Which texts parse is left unsaid.
#[verifier::external_body]
fn parse_version(s: &str) -> (r: Result<ParsedVersion, String>)
    ensures
        r is Ok <==> semver_parse_error(s@) is None,
        r matches Ok(p) ==> p.source_text() == s@,
        r matches Err(e) ==> semver_parse_error(s@) == Some(e@),
{
    match cargo_metadata::semver::Version::parse(s) {
        Ok(version) => Ok(ParsedVersion { version, text: Ghost(s@) }),
        Err(e) => Err(e.to_string()),
    }
}

/// How two version texts compare as semantic versions: -1, 0 or 1.
pub uninterp spec fn semver_order(a: Seq<char>, b: Seq<char>) -> int;

/// Compares two parsed versions (`Ord` of `semver::Version`): -1 when the
/// first is older, 0 when equal, 1 when newer. Claimed: the result is
/// `semver_order` of their texts, one of -1, 0 and 1, and 0 for the same
/// text (the same text parses to the same version). How other texts order
/// is left unsaid.
#[verifier::external_body]
fn version_order(a: &ParsedVersion, b: &ParsedVersion) -> (r: i8)
    ensures
        r == semver_order(a.source_text(), b.source_text()),
        r == -1 || r == 0 || r == 1,
        a.source_text() == b.source_text() ==> r == 0,
{
    match a.version.cmp(&b.version) {
        std::cmp::Ordering::Less => -1,
        std::cmp::Ordering::Equal => 0,
        std::cmp::Ordering::Greater => 1,
    }
}

/// How the installed version of a tool compares to the expected one.
#[derive(Debug, Clone, Copy, PartialEq, Eq, Structural)]
pub enum VersionComparison {
    /// The installed version is newer than expected.
    Newer,
    /// The installed version is older than expected.
    Older,
    /// The versions match.
    Same,
}

/// Compares the expected and installed versions of a tool; an error when
/// either is not a semantic version (the expected one is read first).
pub fn warn_compare_versions(expected: &str, actual: &str) -> (r: Result<VersionComparison, String>)
    ensures
        semver_parse_error(expected@) matches Some(e) ==> (r matches Err(m) && m@ == e),
        semver_parse_error(expected@) is None && semver_parse_error(actual@) is Some ==> (r matches Err(m)
            && Some(m@) == semver_parse_error(actual@)),
        semver_parse_error(expected@) is None && semver_parse_error(actual@) is None ==> (r matches Ok(c) && c == (
            if semver_order(expected@, actual@) < 0 { VersionComparison::Newer }
            else if semver_order(expected@, actual@) > 0 { VersionComparison::Older }
            else { VersionComparison::Same })),
{
    let e = match parse_version(expected) {
        Ok(v) => v,
        Err(m) => {
            return Err(m);
        },
    };
    let a = match parse_version(actual) {
        Ok(v) => v,
        Err(m) => {
            return Err(m);
        },
    };
    let o = version_order(&e, &a);
    if o < 0 {
        Ok(VersionComparison::Newer)
    } else if o > 0 {
        Ok(VersionComparison::Older)
    } else {
        Ok(VersionComparison::Same)
    }
}

/// The tools whose version is checked.
pub open spec fn checked_tool(tool: Seq<char>) -> bool {
    tool == "lintian"@ || tool == "piuparts"@ || tool == "autopkgtest"@
}

/// The command that reports a tool's version: `<tool> --version` for
/// lintian and piuparts, the installed package list for autopkgtest; an
/// error for any other tool.
pub fn tool_version_command(tool: &str) -> (r: Result<(String, Vec<String>), String>)
    ensures
        r is Ok <==> checked_tool(tool@),
        r matches Err(e) ==> e@ == "Unsupported tool: "@ + tool@,
        r matches Ok((cmd, args)) ==> if tool@ == "autopkgtest"@ {
            cmd@ == "apt"@ && text::views(args@) == seq!["list"@, "--installed"@, "autopkgtest"@]
        } else {
            cmd@ == tool@ && text::views(args@) == seq!["--version"@]
        },
{
    let mut args: Vec<String> = Vec::new();
    proof {
        reveal_strlit("lintian");
        reveal_strlit("piuparts");
        reveal_strlit("autopkgtest");
    }
    if str_eq(tool, "lintian") || str_eq(tool, "piuparts") {
        push_str(&mut args, "--version");
        assert(text::views(args@) =~= seq!["--version"@]);
        Ok((owned(tool), args))
    } else if str_eq(tool, "autopkgtest") {
        push_str(&mut args, "list");
        push_str(&mut args, "--installed");
        push_str(&mut args, "autopkgtest");
        assert(text::views(args@) =~= seq!["list"@, "--installed"@, "autopkgtest"@]);
        Ok((owned("apt"), args))
    } else {
        Err(cat("Unsupported tool: ", tool))
    }
}

/// An ASCII decimal digit.
pub open spec fn is_digit(c: char) -> bool {
    '0' <= c && c <= '9'
}

/// A character that can continue a version number: a digit or a dot.
pub open spec fn version_char(c: char) -> bool {
    is_digit(c) || c == '.'
}

/// The end of the run of version characters starting at `j`.
pub open spec fn run_end(s: Seq<char>, j: int) -> int
    decreases s.len() - j,
{
    if j < 0 || j >= s.len() || !version_char(s[j]) { j } else { run_end(s, j + 1) }
}

/// The first word (white-space separated) that starts with a digit, from
/// position `i` on, cut to its leading digits and dots; empty when there
/// is none.
pub open spec fn scan_version(s: Seq<char>, i: int) -> Seq<char>
    decreases s.len() - i,
{
    if i < 0 || i >= s.len() {
        Seq::<char>::empty()
    } else if !text::is_space(s[i]) && (i == 0 || text::is_space(s[i - 1])) && is_digit(s[i]) {
        s.subrange(i, run_end(s, i))
    } else {
        scan_version(s, i + 1)
    }
}

proof fn lemma_run_end(s: Seq<char>, j: int, k: int)
    requires
        0 <= j <= k <= s.len(),
        forall|m: int| j <= m < k ==> version_char(#[trigger] s[m]),
        k < s.len() ==> !version_char(s[k]),
    ensures
        run_end(s, j) == k,
    decreases k - j,
{
    if j < k {
        lemma_run_end(s, j + 1, k);
    }
}

/// The version a tool printed, read the way each tool prints it: lintian's
/// output without `Lintian v` and anything from `ubuntu` on, trimmed;
/// piuparts' output without `piuparts `, trimmed; for autopkgtest the
/// digits and dots that begin the first word starting with a digit.
pub open spec fn tool_version_spec(tool: Seq<char>, output: Seq<char>) -> Seq<char> {
    if tool == "lintian"@ {
        let t = text::replace_spec(output, "Lintian v"@, Seq::<char>::empty());
        text::trim_spec(match text::before_first(t, "ubuntu"@) {
            Some(b) => b,
            None => t,
        })
    } else if tool == "piuparts"@ {
        text::trim_spec(text::replace_spec(output, "piuparts "@, Seq::<char>::empty()))
    } else {
        scan_version(output, 0)
    }
}

/// The version is read back from what each tool prints: `piuparts <v>`
/// gives `<v>`, and `Lintian v<v>` gives `<v>`, also when an Ubuntu
/// suffix follows (`Lintian v<v>ubuntu<w>`).
pub proof fn lemma_tool_versions_read_back(v: Seq<char>, w: Seq<char>)
    requires
        v.len() > 0,
        !text::is_space(v[0]),
        !text::is_space(v.last()),
        forall|k: int| 0 <= k < v.len() ==> #[trigger] v[k] != 'p' && v[k] != 'L' && v[k] != 'u',
        forall|k: int| 0 <= k < w.len() ==> #[trigger] w[k] != 'L',
    ensures
        tool_version_spec("piuparts"@, "piuparts "@ + v) == v,
        tool_version_spec("lintian"@, "Lintian v"@ + v) == v,
        tool_version_spec("lintian"@, "Lintian v"@ + v + "ubuntu"@ + w) == v,
{
    reveal_strlit("piuparts");
    reveal_strlit("lintian");
    reveal_strlit("piuparts ");
    reveal_strlit("Lintian v");
    reveal_strlit("ubuntu");
    let e = Seq::<char>::empty();
    text::lemma_trim_after_spaces(e, v);
    assert(e + v =~= v);
    // piuparts
    assert("piuparts"@ != "lintian"@) by {
        assert("piuparts"@[0] != "lintian"@[0]);
    }
    text::lemma_replace_once(e, "piuparts "@, v, e);
    assert(e + "piuparts "@ + v =~= "piuparts "@ + v);
    assert(e + e + v =~= v);
    // lintian without a suffix
    text::lemma_replace_once(e, "Lintian v"@, v, e);
    assert(e + "Lintian v"@ + v =~= "Lintian v"@ + v);
    assert(!text::contains_spec(v, "ubuntu"@)) by {
        if text::contains_spec(v, "ubuntu"@) {
            let j = choose|j: int| text::occurs_at(v, "ubuntu"@, j);
            assert(v.subrange(j, j + 6)[0] == v[j]);
        }
    }
    assert forall|j: int| 0 <= j < v.len() implies !text::occurs_at(v, "ubuntu"@, j) by {
        if text::occurs_at(v, "ubuntu"@, j) {
            assert(v.subrange(j, j + 6)[0] == v[j]);
        }
    }
    text::lemma_before_first_at(v, "ubuntu"@, v.len() as int);
    // lintian with an Ubuntu suffix
    let t = v + "ubuntu"@ + w;
    assert forall|k: int| 0 <= k < t.len() implies #[trigger] t[k] != 'L' by {
        if k < v.len() {
            assert(t[k] == v[k]);
        } else if k < v.len() + 6 {
            assert(t[k] == "ubuntu"@[k - v.len()]);
        } else {
            assert(t[k] == w[k - v.len() - 6]);
        }
    }
    text::lemma_replace_once(e, "Lintian v"@, t, e);
    assert(e + "Lintian v"@ + t =~= "Lintian v"@ + v + "ubuntu"@ + w);
    assert(e + e + t =~= t);
    assert forall|j: int| 0 <= j < v.len() implies !text::occurs_at(t, "ubuntu"@, j) by {
        if text::occurs_at(t, "ubuntu"@, j) {
            assert(t.subrange(j, j + 6)[0] == t[j]);
            assert(t[j] == v[j]);
        }
    }
    assert(t.subrange(v.len() as int, v.len() as int + 6) =~= "ubuntu"@);
    text::lemma_before_first_at(t, "ubuntu"@, v.len() as int);
    assert(t.take(v.len() as int) =~= v);
}

proof fn lemma_scan_skips(s: Seq<char>, i: int, k: int)
    requires
        0 <= i <= k <= s.len(),
        forall|m: int| i <= m < k ==> !is_digit(#[trigger] s[m]),
    ensures
        scan_version(s, i) == scan_version(s, k),
    decreases k - i,
{
    if i < k {
        lemma_scan_skips(s, i + 1, k);
    }
}

/// autopkgtest's version is the first number in its package listing: in
/// `<text> <v><rest>`, where the text before holds no digit, `<v>` is made
/// of digits and dots and starts with a digit, and `<rest>` does not go on
/// with one, the version read is `<v>`.
pub proof fn lemma_autopkgtest_version_read_back(pre: Seq<char>, v: Seq<char>, rest: Seq<char>)
    requires
        forall|k: int| 0 <= k < pre.len() ==> !is_digit(#[trigger] pre[k]),
        pre.len() == 0 || text::is_space(pre.last()),
        v.len() > 0,
        is_digit(v[0]),
        forall|k: int| 0 <= k < v.len() ==> version_char(#[trigger] v[k]),
        rest.len() == 0 || !version_char(rest[0]),
    ensures
        tool_version_spec("autopkgtest"@, pre + v + rest) == v,
{
    reveal_strlit("autopkgtest");
    reveal_strlit("lintian");
    reveal_strlit("piuparts");
    assert("autopkgtest"@ != "lintian"@) by {
        assert("autopkgtest"@[0] != "lintian"@[0]);
    }
    assert("autopkgtest"@ != "piuparts"@) by {
        assert("autopkgtest"@[0] != "piuparts"@[0]);
    }
    let s = pre + v + rest;
    let i = pre.len() as int;
    assert forall|m: int| 0 <= m < i implies !is_digit(#[trigger] s[m]) by {
        assert(s[m] == pre[m]);
    }
    lemma_scan_skips(s, 0, i);
    assert(s[i] == v[0]);
    if i > 0 {
        assert(s[i - 1] == pre.last());
    }
    assert forall|m: int| i <= m < i + v.len() implies version_char(#[trigger] s[m]) by {
        assert(s[m] == v[m - i]);
    }
    if rest.len() > 0 {
        assert(s[i + v.len()] == rest[0]);
    }
    lemma_run_end(s, i, i + v.len());
    assert(s.subrange(i, i + v.len()) =~= v);
}

/// The version a checked tool printed.
pub fn parse_tool_version(tool: &str, output: &str) -> (r: String)
    requires
        checked_tool(tool@),
    ensures
        r@ == tool_version_spec(tool@, output@),
{
    if str_eq(tool, "lintian") {
        let t = replace_all(output, "Lintian v", "");
        proof {
            reveal_strlit("");
        }
        assert(""@ =~= Seq::<char>::empty());
        let head = match find_before(t.as_str(), "ubuntu") {
            Some(b) => b,
            None => t,
        };
        trim(head.as_str())
    } else if str_eq(tool, "piuparts") {
        let t = replace_all(output, "piuparts ", "");
        proof {
            reveal_strlit("");
        }
        assert(""@ =~= Seq::<char>::empty());
        trim(t.as_str())
    } else {
        proof {
            reveal_strlit("lintian");
            reveal_strlit("piuparts");
            reveal_strlit("autopkgtest");
        }
        assert(tool_version_spec(tool@, output@) == scan_version(output@, 0));
        let v = chars_of(output);
        let mut i: usize = 0;
        while i < v.len()
            invariant
                v@ == output@,
                i <= v.len(),
                scan_version(output@, 0) == scan_version(output@, i as int),
                tool_version_spec(tool@, output@) == scan_version(output@, 0),
            decreases v.len() - i,
        {
            let c = v[i];
            if !is_space_char(c) && (i == 0 || is_space_char(v[i - 1])) && '0' <= c && c <= '9' {
                let mut j: usize = i;
                while j < v.len() && (('0' <= v[j] && v[j] <= '9') || v[j] == '.')
                    invariant
                        i <= j <= v.len(),
                        v@ == output@,
                        forall|m: int| i <= m < j ==> version_char(#[trigger] v@[m]),
                    decreases v.len() - j,
                {
                    j = j + 1;
                }
                proof {
                    lemma_run_end(v@, i as int, j as int);
                }
                return slice_of(&v, i, j);
            }
            i = i + 1;
        }
        String::new()
    }
}


/// What SHA-1 makes of some bytes.
pub uninterp spec fn sha1_of(data: Seq<u8>) -> Seq<u8>;

/// The SHA-1 digest of `data` (`sha1::Sha1::digest`). Claimed: the digest
/// is `sha1_of(data)` and is 20 bytes long.
#[verifier::external_body]
fn sha1_digest(data: &[u8]) -> (r: Vec<u8>)
    ensures
        r@ == sha1_of(data@),
        r@.len() == 20,
{
    sha1::Sha1::digest(data).to_vec()
}

/// The SHA-1 of `data` in lowercase hexadecimal.
pub fn calculate_sha1(data: &[u8]) -> (r: String)
    ensures
        r@ == dir_setup::hex_spec(sha1_of(data@)),
{
    hex(sha1_digest(data).as_slice())
}

/// A build output and the SHA-256 it must have (lowercase hexadecimal).
pub struct PackageHash {
    pub name: String,
    pub hash: String,
}

/// What checking one output says: nothing when its SHA-256 is the expected
/// hash, otherwise `SHA-256 mismatch for <name>: expected <hash>, got <actual>`.
pub open spec fn hash_message(output: PackageHash, data: Seq<u8>) -> Option<Seq<char>> {
    let actual = dir_setup::hex_spec(dir_setup::sha256_of(data));
    if actual == output.hash@ {
        None
    } else {
        Some("SHA-256 mismatch for "@ + output.name@ + ": expected "@ + output.hash@ + ", got "@ + actual)
    }
}

/// Checks one build output against its expected SHA-256: `None` when it
/// matches, otherwise
/// `SHA-256 mismatch for <name>: expected <hash>, got <actual>`.
pub fn check_output_hash(output: &PackageHash, data: &[u8]) -> (r: Option<String>)
    ensures
        r is None <==> dir_setup::hex_spec(dir_setup::sha256_of(data@)) == output.hash@,
        r matches Some(m) ==> m@ == "SHA-256 mismatch for "@ + output.name@ + ": expected "@ + output.hash@ + ", got "@
            + dir_setup::hex_spec(dir_setup::sha256_of(data@)),
        match hash_message(*output, data@) {
            Some(m) => r matches Some(x) && x@ == m,
            None => r is None,
        },
{
    let actual = dir_setup::calculate_sha256(data);
    if str_eq(actual.as_str(), output.hash.as_str()) {
        None
    } else {
        let a = text::cat5("SHA-256 mismatch for ", output.name.as_str(), ": expected ", output.hash.as_str(), ", got ");
        Some(cat(a.as_str(), actual.as_str()))
    }
}

/// The mismatch messages of the first `k` outputs, in order.
pub open spec fn mismatches(checked: Seq<(PackageHash, Vec<u8>)>, k: int) -> Seq<Seq<char>>
    decreases k,
{
    if k <= 0 {
        Seq::<Seq<char>>::empty()
    } else {
        mismatches(checked, k - 1) + match hash_message(checked[k - 1].0, checked[k - 1].1@) {
            Some(m) => seq![m],
            None => Seq::<Seq<char>>::empty(),
        }
    }
}

/// Verifies the build outputs, each with the bytes read from it: success
/// when every output has its expected SHA-256, otherwise every mismatch is
/// reported, in the order of the outputs.
pub fn verify_outputs(checked: &[(PackageHash, Vec<u8>)]) -> (r: Result<(), Vec<String>>)
    ensures
        r is Ok <==> mismatches(checked@, checked@.len() as int).len() == 0,
        r matches Err(m) ==> text::views(m@) == mismatches(checked@, checked@.len() as int),
{
    let mut errors: Vec<String> = Vec::new();
    let mut i: usize = 0;
    while i < checked.len()
        invariant
            i <= checked.len(),
            text::views(errors@) == mismatches(checked@, i as int),
        decreases checked.len() - i,
    {
        let (output, data) = &checked[i];
        match check_output_hash(output, data.as_slice()) {
            Some(m) => {
                text::push_string(&mut errors, m);
            },
            None => {},
        }
        i = i + 1;
    }
    if errors.len() == 0 {
        Ok(())
    } else {
        Err(errors)
    }
}

/// Whether an output's bytes do not have its expected SHA-256.
pub open spec fn output_mismatches(p: (PackageHash, Vec<u8>)) -> bool {
    dir_setup::hex_spec(dir_setup::sha256_of(p.1@)) != p.0.hash@
}

/// The report of an output whose bytes do not have its expected SHA-256.
pub open spec fn mismatch_report(p: (PackageHash, Vec<u8>)) -> Seq<char> {
    "SHA-256 mismatch for "@ + p.0.name@ + ": expected "@ + p.0.hash@ + ", got "@
        + dir_setup::hex_spec(dir_setup::sha256_of(p.1@))
}

proof fn lemma_mismatches_filter(checked: Seq<(PackageHash, Vec<u8>)>, k: int)
    requires
        0 <= k <= checked.len(),
    ensures
        mismatches(checked, k) == checked.take(k).filter(|p: (PackageHash, Vec<u8>)| output_mismatches(p))
            .map_values(|p: (PackageHash, Vec<u8>)| mismatch_report(p)),
    decreases k,
{
    reveal(Seq::filter);
    let pred = |p: (PackageHash, Vec<u8>)| output_mismatches(p);
    let rep = |p: (PackageHash, Vec<u8>)| mismatch_report(p);
    if k == 0 {
        assert(checked.take(0) =~= Seq::<(PackageHash, Vec<u8>)>::empty());
        assert(checked.take(0).filter(pred) =~= Seq::<(PackageHash, Vec<u8>)>::empty());
        assert(checked.take(0).filter(pred).map_values(rep) =~= Seq::<Seq<char>>::empty());
    } else {
        lemma_mismatches_filter(checked, k - 1);
        let t = checked.take(k);
        assert(t.drop_last() =~= checked.take(k - 1));
        assert(t.last() == checked[k - 1]);
        let sub = checked.take(k - 1).filter(pred);
        if pred(checked[k - 1]) {
            assert(t.filter(pred) == sub.push(checked[k - 1]));
            assert(sub.push(checked[k - 1]).map_values(rep) =~= sub.map_values(rep).push(rep(checked[k - 1])));
        } else {
            assert(t.filter(pred) == sub);
        }
    }
}

/// Verifying build outputs looks at every one of them: it succeeds exactly
/// when each output's SHA-256, in lowercase hexadecimal, is its expected
/// hash, and otherwise reports exactly the outputs that differ, in their
/// order, each with its name, expected hash and actual hash.
pub proof fn lemma_verify_outputs_checks_every_output(checked: Seq<(PackageHash, Vec<u8>)>)
    ensures
        mismatches(checked, checked.len() as int).len() == 0 <==> forall|i: int| 0 <= i < checked.len() ==>
            dir_setup::hex_spec(dir_setup::sha256_of(#[trigger] checked[i].1@)) == checked[i].0.hash@,
        mismatches(checked, checked.len() as int) == checked.filter(|p: (PackageHash, Vec<u8>)| output_mismatches(p))
            .map_values(|p: (PackageHash, Vec<u8>)| mismatch_report(p)),
{
    let pred = |p: (PackageHash, Vec<u8>)| output_mismatches(p);
    lemma_mismatches_filter(checked, checked.len() as int);
    assert(checked.take(checked.len() as int) =~= checked);
    let f = checked.filter(pred);
    if f.len() == 0 {
        assert forall|i: int| 0 <= i < checked.len() implies
            dir_setup::hex_spec(dir_setup::sha256_of(#[trigger] checked[i].1@)) == checked[i].0.hash@ by {
            if pred(checked[i]) {
                checked.lemma_filter_contains(pred, i);
            }
        }
    } else {
        let x = f[0];
        checked.lemma_filter_pred(pred, 0);
        assert(f.contains(x));
        checked.lemma_filter_contains_rev(pred, x);
        let i = choose|i: int| 0 <= i < checked.len() && checked[i] == x;
        assert(pred(checked[i]));
        assert(dir_setup::hex_spec(dir_setup::sha256_of(checked[i].1@)) != checked[i].0.hash@);
    }
}

} // verus!
