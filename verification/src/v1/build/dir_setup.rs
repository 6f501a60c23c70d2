//! The package's working directories, its tarball, checksums, and how much
//! of a tarball's directory structure extraction strips.
use vstd::prelude::*;
use crate::text::{self, cat, cat3, cat5, chars_of, ends_with, lines, push_char, slice_of, starts_with, str_eq};
use crate::paths::{self, path_join, pop_path, tilde};
use sha2::Digest;

verus! {

/// The directory a package is built in: `<work_dir>/<package_name>`.
pub fn get_build_artifacts_dir(package_name: &str, work_dir: &str) -> (r: String)
    ensures
        r@ == work_dir@ + "/"@ + package_name@,
{
    cat3(work_dir, "/", package_name)
}

/// The upstream tarball: `<dir>/<name>_<version>.orig.tar.gz`.
pub fn get_tarball_path(package_name: &str, version_number: &str, build_artifacts_dir: &str) -> (r: String)
    ensures
        r@ == build_artifacts_dir@ + "/"@ + package_name@ + "_"@ + version_number@ + ".orig.tar.gz"@,
{
    let a = cat5(build_artifacts_dir, "/", package_name, "_", version_number);
    cat(a.as_str(), ".orig.tar.gz")
}

/// The unpacked source: `<dir>/<name>-<version>`.
pub fn get_build_files_dir(package_name: &str, version_number: &str, build_artifacts_dir: &str) -> (r: String)
    ensures
        r@ == build_artifacts_dir@ + "/"@ + package_name@ + "-"@ + version_number@,
{
    cat5(build_artifacts_dir, "/", package_name, "-", version_number)
}

/// A path after expansion: final, or relative to a directory and still to
/// be resolved on disk (made canonical when it exists).
pub enum ExpandedPath {
    Final(String),
    Relative(String),
}

/// How a path is expanded: a leading `~` to the home directory, an
/// absolute path as it is, anything else joined to `base`.
pub open spec fn expanded_spec(dir: Seq<char>, base: Seq<char>, r: ExpandedPath) -> bool {
    if text::starts_with_spec(dir, "~"@) {
        r matches ExpandedPath::Final(p) && paths::tilde_expanded(dir, p@)
    } else if text::starts_with_spec(dir, "/"@) {
        r matches ExpandedPath::Final(p) && p@ == dir
    } else {
        r matches ExpandedPath::Relative(p) && p@ == paths::join_spec(base, dir)
    }
}

/// Expands a path: `~` to the home directory, an absolute path as it is, a
/// relative one joined to `base`.
pub fn expand_path(dir: &str, base: &str) -> (r: ExpandedPath)
    ensures
        expanded_spec(dir@, base@, r),
{
    if starts_with(dir, "~") {
        ExpandedPath::Final(tilde(dir))
    } else if starts_with(dir, "/") {
        ExpandedPath::Final(text::owned(dir))
    } else {
        ExpandedPath::Relative(path_join(base, dir))
    }
}

/// Where the tarball comes from: a web URL (starting with `http`) as it
/// is, otherwise a path expanded against the configuration's directory.
pub fn get_tarball_url(tarball_url: &str, config_root: &str) -> (r: ExpandedPath)
    ensures
        if text::starts_with_spec(tarball_url@, "http"@) {
            r matches ExpandedPath::Final(p) && p@ == tarball_url@
        } else {
            expanded_spec(tarball_url@, config_root@, r)
        },
{
    if starts_with(tarball_url, "http") {
        ExpandedPath::Final(text::owned(tarball_url))
    } else {
        expand_path(tarball_url, config_root)
    }
}

/// The number of UTF-8 bytes of a character.
pub open spec fn utf8_width(c: char) -> nat {
    if (c as u32) < 0x80 { 1 } else if (c as u32) < 0x800 { 2 } else if (c as u32) < 0x10000 { 3 } else { 4 }
}

/// The byte offset of the `k`-th character of `s`.
pub open spec fn byte_offset(s: Seq<char>, k: int) -> nat
    decreases k,
{
    if k <= 0 || k > s.len() { 0 } else { byte_offset(s, k - 1) + utf8_width(s[k - 1]) }
}

/// Every other string has, at the character position equal to the byte
/// offset of `first`'s `k`-th character, that same character. (The
/// comparison mixes byte offsets into `first` with character positions in
/// the others; the two agree on ASCII text.)
pub open spec fn char_agrees(rest: Seq<Seq<char>>, first: Seq<char>, k: int) -> bool {
    forall|t: int| 0 <= t < rest.len() ==> #[trigger] has_char_at(rest[t], byte_offset(first, k) as int, first[k])
}

/// `s` has the character `c` at position `i`.
pub open spec fn has_char_at(s: Seq<char>, i: int, c: char) -> bool {
    0 <= i < s.len() && s[i] == c
}

/// The end of the common prefix: the first position from `k` on where the
/// strings disagree, or the end of `first`.
pub open spec fn prefix_end(rest: Seq<Seq<char>>, first: Seq<char>, k: nat) -> nat
    decreases first.len() - k,
{
    if k >= first.len() || !char_agrees(rest, first, k as int) { k } else { prefix_end(rest, first, k + 1) }
}

/// The longest common prefix of some paths: empty for none, the parent of
/// a single path, and otherwise the characters of the first on which all
/// agree.
pub open spec fn lcp_spec(strings: Seq<Seq<char>>) -> Seq<char> {
    if strings.len() == 0 {
        Seq::<char>::empty()
    } else if strings.len() == 1 {
        paths::popped_path(strings[0])
    } else {
        strings[0].take(prefix_end(strings.skip(1), strings[0], 0) as int)
    }
}

/// The views of a slice of string slices.
pub open spec fn str_views(v: Seq<&str>) -> Seq<Seq<char>> {
    v.map_values(|s: &str| s@)
}

proof fn lemma_prefix_end(rest: Seq<Seq<char>>, first: Seq<char>, i: nat, k: nat)
    requires
        i <= k <= first.len(),
        forall|j: int| i <= j < k ==> char_agrees(rest, first, j),
        k < first.len() ==> !char_agrees(rest, first, k as int),
    ensures
        prefix_end(rest, first, i) == k,
    decreases k - i,
{
    if i < k {
        lemma_prefix_end(rest, first, i + 1, k);
    }
}

/// Text made of ASCII characters only.
pub open spec fn is_ascii(s: Seq<char>) -> bool {
    forall|i: int| 0 <= i < s.len() ==> (#[trigger] s[i] as u32) < 0x80
}

proof fn lemma_ascii_byte_offset(s: Seq<char>, k: int)
    requires
        is_ascii(s),
        0 <= k <= s.len(),
    ensures
        byte_offset(s, k) == k,
    decreases k,
{
    if k > 0 {
        lemma_ascii_byte_offset(s, k - 1);
        assert((s[k - 1] as u32) < 0x80);
    }
}

proof fn lemma_prefix_end_props(rest: Seq<Seq<char>>, first: Seq<char>, i: nat)
    requires
        i <= first.len(),
    ensures
        i <= prefix_end(rest, first, i) <= first.len(),
        forall|m: int| i <= m < prefix_end(rest, first, i) ==> char_agrees(rest, first, m),
        prefix_end(rest, first, i) < first.len() ==> !char_agrees(rest, first, prefix_end(rest, first, i) as int),
    decreases first.len() - i,
{
    if i < first.len() && char_agrees(rest, first, i as int) {
        lemma_prefix_end_props(rest, first, i + 1);
    }
}

/// For two or more paths whose first is ASCII, the result is their longest
/// common prefix: it begins every path, and it is the whole first path or
/// some other path ends there or has another character there.
pub proof fn lemma_lcp_is_longest(ss: Seq<Seq<char>>)
    requires
        ss.len() >= 2,
        is_ascii(ss[0]),
    ensures
        forall|j: int| 0 <= j < ss.len() ==> lcp_spec(ss).len() <= (#[trigger] ss[j]).len()
            && ss[j].take(lcp_spec(ss).len() as int) == lcp_spec(ss),
        lcp_spec(ss).len() == ss[0].len() || exists|j: int| 1 <= j < ss.len()
            && ((#[trigger] ss[j]).len() <= lcp_spec(ss).len() || ss[j][lcp_spec(ss).len() as int] != ss[0][lcp_spec(ss).len() as int]),
{
    let first = ss[0];
    let rest = ss.skip(1);
    lemma_prefix_end_props(rest, first, 0);
    let e = prefix_end(rest, first, 0);
    let p = lcp_spec(ss);
    assert(p == first.take(e as int));
    assert(p.len() == e);
    assert forall|j: int| 0 <= j < ss.len() implies p.len() <= (#[trigger] ss[j]).len()
        && ss[j].take(p.len() as int) == p by {
        if j > 0 {
            assert(rest[j - 1] == ss[j]);
            assert forall|m: int| 0 <= m < e implies ss[j].len() > m && ss[j][m] == first[m] by {
                assert(char_agrees(rest, first, m));
                lemma_ascii_byte_offset(first, m);
                assert(has_char_at(rest[j - 1], byte_offset(first, m) as int, first[m]));
            }
            if e > 0 {
                let m = e - 1;
                assert(char_agrees(rest, first, m));
                lemma_ascii_byte_offset(first, m);
                assert(has_char_at(rest[j - 1], byte_offset(first, m) as int, first[m]));
            }
            assert(ss[j].take(p.len() as int) =~= p);
        }
    }
    if e < first.len() {
        assert(!char_agrees(rest, first, e as int));
        let t = choose|t: int| 0 <= t < rest.len() && !has_char_at(rest[t], byte_offset(first, e as int) as int, first[e as int]);
        lemma_ascii_byte_offset(first, e as int);
        assert(rest[t] == ss[t + 1]);
        assert(ss[t + 1].len() <= p.len() || ss[t + 1][p.len() as int] != ss[0][p.len() as int]);
    }
}

fn utf8_width_of(c: char) -> (r: u128)
    ensures
        r == utf8_width(c),
{
    let x = c as u32;
    if x < 0x80 { 1 } else if x < 0x800 { 2 } else if x < 0x10000 { 3 } else { 4 }
}

/// The longest common prefix of the entries of a tarball listing.
pub fn longest_common_prefix(strings: &[&str]) -> (r: String)
    ensures
        r@ == lcp_spec(str_views(strings@)),
{
    if strings.len() == 0 {
        return String::new();
    }
    if strings.len() == 1 {
        return pop_path(strings[0]);
    }
    let ghost views = str_views(strings@);
    let ghost rest = views.skip(1);
    let first = chars_of(strings[0]);
    let mut others: Vec<Vec<char>> = Vec::new();
    let mut t: usize = 1;
    while t < strings.len()
        invariant
            1 <= t <= strings.len(),
            views == str_views(strings@),
            others@.len() == t - 1,
            forall|u: int| 0 <= u < t - 1 ==> #[trigger] others@[u]@ == views[u + 1],
        decreases strings.len() - t,
    {
        others.push(chars_of(strings[t]));
        t = t + 1;
    }
    let mut k: usize = 0;
    let mut b: u128 = 0;
    while k < first.len()
        invariant
            k <= first.len(),
            first@ == views[0],
            rest == views.skip(1),
            views == str_views(strings@),
            views.len() == strings@.len(),
            strings@.len() >= 2,
            others@.len() == rest.len(),
            forall|u: int| 0 <= u < others@.len() ==> #[trigger] others@[u]@ == rest[u],
            b == byte_offset(first@, k as int),
            b <= 4 * k,
            forall|j: int| 0 <= j < k ==> char_agrees(rest, first@, j),
        decreases first.len() - k,
    {
        let c = first[k];
        let mut u: usize = 0;
        let mut all = true;
        while u < others.len()
            invariant
                u <= others@.len(),
                all ==> forall|w: int| 0 <= w < u ==> #[trigger] has_char_at(rest[w], byte_offset(first@, k as int) as int, first@[k as int]),
                !all ==> !char_agrees(rest, first@, k as int),
                b == byte_offset(first@, k as int),
                k < first@.len(),
                c == first@[k as int],
                others@.len() == rest.len(),
                forall|w: int| 0 <= w < others@.len() ==> #[trigger] others@[w]@ == rest[w],
            decreases others.len() - u,
        {
            let o = &others[u];
            assert(o@ == rest[u as int]);
            let ok = b < o.len() as u128 && o[b as usize] == c;
            proof {
                let bo = byte_offset(first@, k as int) as int;
                if ok {
                    assert(has_char_at(rest[u as int], bo, first@[k as int]));
                } else {
                    assert(!has_char_at(rest[u as int], bo, first@[k as int]));
                }
            }
            if !ok {
                all = false;
            }
            u = u + 1;
        }
        if !all {
            proof {
                lemma_prefix_end(rest, first@, 0, k as nat);
            }
            let r = slice_of(&first, 0, k);
            assert(r@ =~= views[0].take(k as int));
            return r;
        }
        assert(char_agrees(rest, first@, k as int));
        b = b + utf8_width_of(c);
        k = k + 1;
    }
    proof {
        lemma_prefix_end(rest, first@, 0, k as nat);
    }
    let r = slice_of(&first, 0, k);
    assert(r@ =~= views[0].take(k as int));
    r
}

/// The number of `/`-separated segments of a path that are not empty.
pub open spec fn segment_count(s: Seq<char>) -> nat
    decreases s.len(),
{
    if s.len() == 0 {
        0
    } else {
        segment_count(s.drop_last()) + if s.last() != '/' && (s.len() == 1 || s[s.len() - 2] == '/') { 1nat } else { 0nat }
    }
}

/// The number of non-empty `/`-separated segments of `s`.
pub fn count_segments(s: &str) -> (r: usize)
    ensures
        r == segment_count(s@),
{
    let v = chars_of(s);
    let mut n: usize = 0;
    let mut i: usize = 0;
    while i < v.len()
        invariant
            i <= v.len(),
            n == segment_count(v@.take(i as int)),
            n <= i,
        decreases v.len() - i,
    {
        proof {
            assert(v@.take(i + 1).drop_last() =~= v@.take(i as int));
        }
        if v[i] != '/' && (i == 0 || v[i - 1] == '/') {
            n = n + 1;
        }
        i = i + 1;
    }
    assert(v@.take(i as int) =~= v@);
    n
}

/// The entries of a listing that are files (not ending in `/`).
pub open spec fn file_entries(ls: Seq<Seq<char>>) -> Seq<Seq<char>>
    decreases ls.len(),
{
    if ls.len() == 0 {
        seq![]
    } else {
        file_entries(ls.drop_last()) + if text::ends_with_spec(ls.last(), "/"@) { seq![] } else { seq![ls.last()] }
    }
}

/// How many leading directories extraction strips for a tarball with this
/// listing (`tar --list` output): the segments of the longest common
/// prefix of its file entries.
pub open spec fn strip_spec(listing: Seq<char>) -> nat {
    segment_count(lcp_spec(file_entries(text::lines_spec(listing))))
}

/// How many leading directories to strip when extracting a tarball whose
/// `tar --list` output is `listing`.
pub fn components_to_strip(listing: &str) -> (r: usize)
    ensures
        r == strip_spec(listing@),
{
    let ls = lines(listing);
    let mut files: Vec<&str> = Vec::new();
    let mut i: usize = 0;
    while i < ls.len()
        invariant
            i <= ls.len(),
            text::views(ls@) == text::lines_spec(listing@),
            str_views(files@) == file_entries(text::views(ls@).take(i as int)),
        decreases ls.len() - i,
    {
        proof {
            assert(text::views(ls@).take(i + 1).drop_last() =~= text::views(ls@).take(i as int));
        }
        let ghost before = str_views(files@);
        if !ends_with(ls[i].as_str(), "/") {
            files.push(ls[i].as_str());
            assert(str_views(files@) =~= before + seq![ls@[i as int]@]);
        } else {
            assert(str_views(files@) =~= before + Seq::<Seq<char>>::empty());
        }
        i = i + 1;
    }
    assert(text::views(ls@).take(i as int) =~= text::views(ls@));
    let prefix = longest_common_prefix(files.as_slice());
    count_segments(prefix.as_str())
}

/// The arguments of the tar run that extracts the tarball into the build
/// directory, stripping `strip` leading directories when there are any.
pub fn extract_args(tarball_path: &str, build_files_dir: &str, strip: usize) -> (r: Vec<String>)
    ensures
        text::views(r@) == seq!["zxvf"@, tarball_path@, "-C"@, build_files_dir@]
            + if strip > 0 { seq!["--strip-components="@ + text::decimal_spec(strip as nat)] } else { seq![] },
{
    let mut args: Vec<String> = Vec::new();
    text::push_str(&mut args, "zxvf");
    text::push_str(&mut args, tarball_path);
    text::push_str(&mut args, "-C");
    text::push_str(&mut args, build_files_dir);
    if strip > 0 {
        text::push_string(&mut args, cat("--strip-components=", text::decimal(strip as u64).as_str()));
    }
    assert(text::views(args@) =~= seq!["zxvf"@, tarball_path@, "-C"@, build_files_dir@]
            + if strip > 0 { seq!["--strip-components="@ + text::decimal_spec(strip as nat)] } else { seq![] });
    args
}

/// What SHA-512 makes of some bytes.
pub uninterp spec fn sha512_of(data: Seq<u8>) -> Seq<u8>;

/// What SHA-256 makes of some bytes.
pub uninterp spec fn sha256_of(data: Seq<u8>) -> Seq<u8>;

/// The SHA-512 digest of `data` (`sha2::Sha512::digest`). Claimed: the
/// digest is `sha512_of(data)` and is 64 bytes long.
#[verifier::external_body]
fn sha512_digest(data: &[u8]) -> (r: Vec<u8>)
    ensures
        r@ == sha512_of(data@),
        r@.len() == 64,
{
    sha2::Sha512::digest(data).to_vec()
}

/// The SHA-256 digest of `data` (`sha2::Sha256::digest`). Claimed: the
/// digest is `sha256_of(data)` and is 32 bytes long.
#[verifier::external_body]
fn sha256_digest(data: &[u8]) -> (r: Vec<u8>)
    ensures
        r@ == sha256_of(data@),
        r@.len() == 32,
{
    sha2::Sha256::digest(data).to_vec()
}

/// The lowercase hexadecimal digit of a value below 16.
pub open spec fn hex_digit(d: u8) -> char {
    if d < 10 { ((d + 48) as u8) as char } else { ((d + 87) as u8) as char }
}

/// The bytes written as lowercase hexadecimal, two digits each
/// (`format!("{:02x}", b)` for every byte).
pub open spec fn hex_spec(data: Seq<u8>) -> Seq<char>
    decreases data.len(),
{
    if data.len() == 0 {
        Seq::<char>::empty()
    } else {
        hex_spec(data.drop_last()) + seq![hex_digit(data.last() / 16), hex_digit(data.last() % 16)]
    }
}

proof fn lemma_hex_digit(d: u8)
    requires
        d < 16,
    ensures
        hex_digit(d) == "0123456789abcdef"@[d as int],
{
    reveal_strlit("0123456789abcdef");
    assert(hex_digit(0) == '0' && hex_digit(1) == '1' && hex_digit(2) == '2' && hex_digit(3) == '3');
    assert(hex_digit(4) == '4' && hex_digit(5) == '5' && hex_digit(6) == '6' && hex_digit(7) == '7');
    assert(hex_digit(8) == '8' && hex_digit(9) == '9' && hex_digit(10) == 'a' && hex_digit(11) == 'b');
    assert(hex_digit(12) == 'c' && hex_digit(13) == 'd' && hex_digit(14) == 'e' && hex_digit(15) == 'f');
}

/// Bytes in hexadecimal take two characters each: the byte's high nibble
/// then its low nibble, each written with the digits `0`-`9` and the
/// lowercase letters `a`-`f`.
pub proof fn lemma_hex_digits(data: Seq<u8>)
    ensures
        hex_spec(data).len() == 2 * data.len(),
        forall|i: int| 0 <= i < data.len() ==> hex_spec(data).subrange(2 * i, 2 * i + 2)
            == seq!["0123456789abcdef"@[(#[trigger] data[i] / 16) as int], "0123456789abcdef"@[(data[i] % 16) as int]],
    decreases data.len(),
{
    if data.len() > 0 {
        let init = data.drop_last();
        lemma_hex_digits(init);
        let b = data.last();
        lemma_hex_digit(b / 16);
        lemma_hex_digit(b % 16);
        let h = hex_spec(data);
        let t = hex_spec(init);
        assert(h == t + seq![hex_digit(b / 16), hex_digit(b % 16)]);
        assert forall|i: int| 0 <= i < data.len() implies h.subrange(2 * i, 2 * i + 2)
            == seq!["0123456789abcdef"@[(#[trigger] data[i] / 16) as int], "0123456789abcdef"@[(data[i] % 16) as int]] by {
            if i < data.len() - 1 {
                assert(init[i] == data[i]);
                assert(h.subrange(2 * i, 2 * i + 2) =~= t.subrange(2 * i, 2 * i + 2));
            } else {
                assert(h.subrange(2 * i, 2 * i + 2) =~= seq![hex_digit(b / 16), hex_digit(b % 16)]);
            }
        }
    }
}

fn hex_char(d: u8) -> (c: char)
    requires
        d < 16,
    ensures
        c == hex_digit(d),
{
    if d < 10 { ((d + 48) as u8) as char } else { ((d + 87) as u8) as char }
}

/// The bytes of `data` as lowercase hexadecimal.
pub fn hex(data: &[u8]) -> (r: String)
    ensures
        r@ == hex_spec(data@),
{
    let mut r = String::new();
    let mut i: usize = 0;
    while i < data.len()
        invariant
            i <= data.len(),
            r@ == hex_spec(data@.take(i as int)),
        decreases data.len() - i,
    {
        proof {
            assert(data@.take(i + 1).drop_last() =~= data@.take(i as int));
        }
        let b = data[i];
        push_char(&mut r, hex_char(b / 16));
        push_char(&mut r, hex_char(b % 16));
        i = i + 1;
        assert(r@ =~= hex_spec(data@.take(i as int)));
    }
    assert(data@.take(i as int) =~= data@);
    r
}

/// The SHA-512 digest of the data in lowercase hexadecimal.
pub fn calculate_sha512(data: &[u8]) -> (r: String)
    ensures
        r@ == hex_spec(sha512_of(data@)),
{
    hex(sha512_digest(data).as_slice())
}

/// The SHA-256 digest of the data in lowercase hexadecimal.
pub fn calculate_sha256(data: &[u8]) -> (r: String)
    ensures
        r@ == hex_spec(sha256_of(data@)),
{
    hex(sha256_digest(data).as_slice())
}

/// A tarball matches a checksum when its SHA-512 or its SHA-256, in
/// lowercase hexadecimal, is that checksum.
pub open spec fn checksum_matches(data: Seq<u8>, expected: Seq<char>) -> bool {
    hex_spec(sha512_of(data)) == expected || hex_spec(sha256_of(data)) == expected
}

/// Whether the tarball's SHA-512 or SHA-256 is the expected checksum; the
/// error `Hashes do not match.` otherwise.
pub fn verify_tarball_checksum(data: &[u8], expected_checksum: &str) -> (r: Result<bool, String>)
    ensures
        r is Ok <==> checksum_matches(data@, expected_checksum@),
        r matches Ok(b) ==> b,
        r matches Err(e) ==> e@ == "Hashes do not match."@,
{
    let sha512 = calculate_sha512(data);
    if str_eq(sha512.as_str(), expected_checksum) {
        return Ok(true);
    }
    let sha256 = calculate_sha256(data);
    if str_eq(sha256.as_str(), expected_checksum) {
        return Ok(true);
    }
    Err(text::owned("Hashes do not match."))
}

/// Checks a tarball against its configured checksum: nothing to check
/// without one; otherwise it must match, else `Error checking hash:` and
/// the reason.
pub fn verify_hash(data: &[u8], expected_checksum: Option<String>) -> (r: Result<(), String>)
    ensures
        expected_checksum is None ==> r is Ok,
        expected_checksum matches Some(h) ==> (r is Ok <==> checksum_matches(data@, h@)),
        expected_checksum is Some ==> (r matches Err(e) ==> e@ == "Error checking hash: "@ + "Hashes do not match."@),
{
    match expected_checksum {
        Some(h) => match verify_tarball_checksum(data, h.as_str()) {
            Ok(true) => Ok(()),
            Ok(false) => Err(text::owned("Checksum is invalid.")),
            Err(e) => Err(cat("Error checking hash: ", e.as_str())),
        },
        None => Ok(()),
    }
}

/// The control file with `Standards-Version` and `Homepage` inserted after
/// the `Priority:` line (at the top when there is none), unless a
/// `Standards-Version` line is already there.
pub open spec fn patched_control(ls: Seq<Seq<char>>, homepage: Seq<char>) -> Seq<Seq<char>> {
    if exists|i: int| 0 <= i < ls.len() && text::starts_with_spec(#[trigger] ls[i], "Standards-Version"@) {
        ls
    } else {
        let at = priority_insert_at(ls, 0);
        ls.take(at as int) + seq!["Standards-Version: 4.5.1"@, "Homepage: "@ + homepage] + ls.skip(at as int)
    }
}

/// The position after the first `Priority:` line from `k` on; 0 when there
/// is none.
pub open spec fn priority_insert_at(ls: Seq<Seq<char>>, k: nat) -> nat
    decreases ls.len() - k,
{
    if k >= ls.len() {
        0
    } else if text::starts_with_spec(ls[k as int], "Priority:"@) {
        k + 1
    } else {
        priority_insert_at(ls, k + 1)
    }
}

proof fn lemma_priority_at(ls: Seq<Seq<char>>, i: nat, k: nat)
    requires
        i <= k <= ls.len(),
        forall|j: int| i <= j < k ==> !text::starts_with_spec(#[trigger] ls[j], "Priority:"@),
    ensures
        priority_insert_at(ls, i) == (if k < ls.len() && text::starts_with_spec(ls[k as int], "Priority:"@) { k + 1 } else if k == ls.len() { 0 } else { priority_insert_at(ls, k) }),
    decreases k - i,
{
    if i < k {
        lemma_priority_at(ls, i + 1, k);
    }
}

/// After patching, the control file has a `Standards-Version` line, and
/// patching it again changes nothing. A file that had one is left as it
/// was; otherwise exactly the two lines `Standards-Version: 4.5.1` and
/// `Homepage: <homepage>` are added, next to each other, and every line of
/// the file is kept in its order.
pub proof fn lemma_patch_control_once(ls: Seq<Seq<char>>, homepage: Seq<char>)
    ensures
        exists|i: int| 0 <= i < patched_control(ls, homepage).len()
            && text::starts_with_spec(#[trigger] patched_control(ls, homepage)[i], "Standards-Version"@),
        patched_control(patched_control(ls, homepage), homepage) == patched_control(ls, homepage),
        (exists|i: int| 0 <= i < ls.len() && text::starts_with_spec(#[trigger] ls[i], "Standards-Version"@))
            ==> patched_control(ls, homepage) == ls,
        !(exists|i: int| 0 <= i < ls.len() && text::starts_with_spec(#[trigger] ls[i], "Standards-Version"@))
            ==> exists|at: int| 0 <= at <= ls.len() && patched_control(ls, homepage)
                == ls.take(at) + seq!["Standards-Version: 4.5.1"@, "Homepage: "@ + homepage] + ls.skip(at),
{
    reveal_strlit("Standards-Version: 4.5.1");
    reveal_strlit("Standards-Version");
    let p = patched_control(ls, homepage);
    if exists|i: int| 0 <= i < ls.len() && text::starts_with_spec(#[trigger] ls[i], "Standards-Version"@) {
        let i = choose|i: int| 0 <= i < ls.len() && text::starts_with_spec(#[trigger] ls[i], "Standards-Version"@);
        assert(p[i] == ls[i]);
    } else {
        let at = priority_insert_at(ls, 0);
        assert(at <= ls.len()) by {
            lemma_priority_bound(ls, 0);
        }
        let line = "Standards-Version: 4.5.1"@;
        assert(p[at as int] == line);
        assert(line.take(17) =~= "Standards-Version"@);
        assert(text::starts_with_spec(p[at as int], "Standards-Version"@));
    }
}

proof fn lemma_priority_bound(ls: Seq<Seq<char>>, k: nat)
    ensures
        priority_insert_at(ls, k) <= ls.len(),
    decreases ls.len() - k,
{
    if k < ls.len() && !text::starts_with_spec(ls[k as int], "Priority:"@) {
        lemma_priority_bound(ls, k + 1);
    }
}

/// The control file's lines with the standards version and homepage
/// added where they are missing.
pub fn patch_standards_version(lines_in: &[String], homepage: &str) -> (r: Vec<String>)
    ensures
        text::views(r@) == patched_control(text::views(lines_in@), homepage@),
{
    let ghost ls = text::views(lines_in@);
    let mut i: usize = 0;
    while i < lines_in.len()
        invariant
            i <= lines_in.len(),
            ls == text::views(lines_in@),
            forall|j: int| 0 <= j < i ==> !text::starts_with_spec(#[trigger] ls[j], "Standards-Version"@),
        decreases lines_in.len() - i,
    {
        if starts_with(lines_in[i].as_str(), "Standards-Version") {
            let mut out: Vec<String> = Vec::new();
            text::push_all(&mut out, lines_in);
            assert(text::starts_with_spec(ls[i as int], "Standards-Version"@));
            assert(text::views(out@) =~= ls);
            return out;
        }
        i = i + 1;
    }
    let mut k: usize = 0;
    while k < lines_in.len() && !starts_with(lines_in[k].as_str(), "Priority:")
        invariant
            k <= lines_in.len(),
            ls == text::views(lines_in@),
            forall|j: int| 0 <= j < k ==> !text::starts_with_spec(#[trigger] ls[j], "Priority:"@),
        decreases lines_in.len() - k,
    {
        k = k + 1;
    }
    let at: usize = if k < lines_in.len() { k + 1 } else { 0 };
    proof {
        lemma_priority_at(ls, 0, k as nat);
    }
    let mut out: Vec<String> = Vec::new();
    text::push_range(&mut out, lines_in, 0, at);
    text::push_str(&mut out, "Standards-Version: 4.5.1");
    text::push_string(&mut out, cat("Homepage: ", homepage));
    text::push_range(&mut out, lines_in, at, lines_in.len());
    assert(text::views(out@) =~= patched_control(ls, homepage@));
    out
}

} // verus!
