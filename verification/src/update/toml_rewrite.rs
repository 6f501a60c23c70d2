//! Rewriting the fields of `pkg-builder.toml` an update changes, keeping
//! the rest of the document (comments and layout included) as it is.
use vstd::prelude::*;
use toml_edit::DocumentMut;

verus! {

/// Fields to set in the TOML document; `None` leaves a field as it is.
pub struct TomlUpdates {
    pub version: Option<String>,
    pub revision: Option<String>,
    pub source_url: Option<String>,
    pub source_hash: Option<String>,
    pub source_tag: Option<String>,
    pub runtime_vars: Option<Vec<(String, String)>>,
}

#[verifier::external_type_specification]
#[verifier::external_body]
pub struct ExDocumentMut(toml_edit::DocumentMut);

/// The string values a TOML document holds directly under its top-level
/// tables: `(table, key) -> value` for each key of a top-level table (or
/// inline table) whose value is a string.
pub uninterp spec fn toml_strings(doc: DocumentMut) -> Map<(Seq<char>, Seq<char>), Seq<char>>;

/// The document's top-level entries that hold a value: each key, with
/// whether the value is a table (or an inline table).
pub uninterp spec fn toml_tops(doc: DocumentMut) -> Map<Seq<char>, bool>;

/// What `toml_edit` parses a text into: the strings and top-level entries
/// of the document, or `None` when the text is not a TOML document.
pub uninterp spec fn toml_parse(content: Seq<char>) -> Option<(Map<(Seq<char>, Seq<char>), Seq<char>>, Map<Seq<char>, bool>)>;

/// Parses a TOML text into a document that keeps its formatting
/// (`str::parse::<toml_edit::DocumentMut>`), with the parser's message on
/// failure. Claimed: success exactly when `toml_parse` gives a document,
/// and then the document holds what `toml_parse` says.
#[verifier::external_body]
fn parse_document(content: &str) -> (r: Result<DocumentMut, String>)
    ensures
        match r {
            Ok(d) => toml_parse(content@) == Some((toml_strings(d), toml_tops(d))),
            Err(_) => toml_parse(content@) is None,
        },
{
    match content.parse::<DocumentMut>() {
        Ok(d) => Ok(d),
        Err(e) => Err(e.to_string()),
    }
}

/// Whether a top-level entry holds a value, and if so whether it is a
/// table (`DocumentMut::get`, then `Item::is_table_like`). Claimed: exactly
/// what `toml_tops` says of the key.
#[verifier::external_body]
fn top_entry(doc: &DocumentMut, table: &str) -> (r: Option<bool>)
    ensures
        r == (if toml_tops(*doc).contains_key(table@) { Some(toml_tops(*doc)[table@]) } else { None::<bool> }),
{
    match doc.get(table) {
        Some(item) => Some(item.is_table_like()),
        None => None,
    }
}

/// Whether a top-level entry holds something other than a table.
pub open spec fn blocked(tops: Map<Seq<char>, bool>, table: Seq<char>) -> bool {
    tops.contains_key(table) && !tops[table]
}

/// Sets `doc[table][key]` to the string `value` (`IndexMut` on the document
/// and on the entry, then `toml_edit::value`). An absent entry becomes an
/// inline table; indexing into an entry that holds something other than a
/// table panics, so that is left out. Claimed: the key now holds the
/// string, the entry is a table, and nothing else changes.
#[verifier::external_body]
fn set_string(doc: &mut DocumentMut, table: &str, key: &str, value: &str)
    requires
        !blocked(toml_tops(*old(doc)), table@),
    ensures
        toml_strings(*final(doc)) == toml_strings(*old(doc)).insert((table@, key@), value@),
        toml_tops(*final(doc)) == toml_tops(*old(doc)).insert(table@, true),
{
    doc[table][key] = toml_edit::value(value);
}

/// The text of a document, formatted as it was read (`Display` of
/// `DocumentMut`). Claimed: the text parses back to a document that holds
/// the same strings and top-level entries. How `toml_edit` lays out the
/// text (order, spacing, comments) is not described here.
#[verifier::external_body]
fn document_text(doc: &DocumentMut) -> (r: String)
    ensures
        toml_parse(r@) == Some((toml_strings(*doc), toml_tops(*doc))),
{
    doc.to_string()
}

/// Whether the updates can be written: the tables they write to hold no
/// value other than a table (the runtime table only matters when present,
/// as runtime values are only written into an existing one).
pub open spec fn updates_fit(tops: Map<Seq<char>, bool>, u: TomlUpdates) -> bool {
    &&& (u.version is Some || u.revision is Some) ==> !blocked(tops, "package"@)
    &&& (u.source_url is Some || u.source_hash is Some || u.source_tag is Some) ==> !blocked(tops, "source"@)
    &&& (u.runtime_vars is Some && tops.contains_key("runtime"@)) ==> tops["runtime"@]
}

/// `m` with `(table, key)` set to the value, when there is one.
pub open spec fn set_opt(
    m: Map<(Seq<char>, Seq<char>), Seq<char>>,
    table: Seq<char>,
    key: Seq<char>,
    v: Option<String>,
) -> Map<(Seq<char>, Seq<char>), Seq<char>> {
    match v {
        Some(s) => m.insert((table, key), s@),
        None => m,
    }
}

/// `m` with each runtime variable set under `runtime`, in order.
pub open spec fn insert_vars(
    m: Map<(Seq<char>, Seq<char>), Seq<char>>,
    vars: Seq<(String, String)>,
) -> Map<(Seq<char>, Seq<char>), Seq<char>>
    decreases vars.len(),
{
    if vars.len() == 0 {
        m
    } else {
        insert_vars(m, vars.drop_last()).insert(("runtime"@, vars.last().0@), vars.last().1@)
    }
}

/// The strings of a document after the package and source fields are set.
pub open spec fn fields_set(m: Map<(Seq<char>, Seq<char>), Seq<char>>, u: TomlUpdates) -> Map<(Seq<char>, Seq<char>), Seq<char>> {
    let m1 = set_opt(set_opt(m, "package"@, "version"@, u.version), "package"@, "revision"@, u.revision);
    set_opt(set_opt(set_opt(m1, "source"@, "url"@, u.source_url), "source"@, "hash"@, u.source_hash), "source"@, "tag"@, u.source_tag)
}

/// The strings of a document after an update: the package and source
/// fields that are given, then the runtime variables when the document has
/// a runtime table.
pub open spec fn rewritten_strings(
    m: Map<(Seq<char>, Seq<char>), Seq<char>>,
    tops: Map<Seq<char>, bool>,
    u: TomlUpdates,
) -> Map<(Seq<char>, Seq<char>), Seq<char>> {
    match u.runtime_vars {
        Some(vars) => if tops.contains_key("runtime"@) { insert_vars(fields_set(m, u), vars@) } else { fields_set(m, u) },
        None => fields_set(m, u),
    }
}

/// The top-level entries after an update: the package and source tables
/// exist when a field of theirs was written.
pub open spec fn rewritten_tops(tops: Map<Seq<char>, bool>, u: TomlUpdates) -> Map<Seq<char>, bool> {
    let t1 = if u.version is Some || u.revision is Some { tops.insert("package"@, true) } else { tops };
    if u.source_url is Some || u.source_hash is Some || u.source_tag is Some { t1.insert("source"@, true) } else { t1 }
}

fn set_field(doc: &mut DocumentMut, table: &str, key: &str, v: &Option<String>)
    requires
        v is Some ==> !blocked(toml_tops(*old(doc)), table@),
    ensures
        toml_strings(*final(doc)) == set_opt(toml_strings(*old(doc)), table@, key@, *v),
        toml_tops(*final(doc)) == (if v is Some { toml_tops(*old(doc)).insert(table@, true) } else { toml_tops(*old(doc)) }),
{
    if let Some(s) = v {
        set_string(doc, table, key, s.as_str());
    }
}

/// Writes the given fields into a document: the package's version and
/// revision, the source's URL, hash and tag, and, when the document has a
/// runtime table, the runtime variables in order. Nothing else changes.
pub fn rewrite_document(doc: &mut DocumentMut, updates: &TomlUpdates)
    requires
        updates_fit(toml_tops(*old(doc)), *updates),
    ensures
        toml_strings(*final(doc)) == rewritten_strings(toml_strings(*old(doc)), toml_tops(*old(doc)), *updates),
        toml_tops(*final(doc)) == rewritten_tops(toml_tops(*old(doc)), *updates),
{
    proof {
        reveal_strlit("package");
        reveal_strlit("source");
        reveal_strlit("runtime");
    }
    let ghost m0 = toml_strings(*doc);
    let ghost t0 = toml_tops(*doc);
    set_field(doc, "package", "version", &updates.version);
    set_field(doc, "package", "revision", &updates.revision);
    set_field(doc, "source", "url", &updates.source_url);
    set_field(doc, "source", "hash", &updates.source_hash);
    set_field(doc, "source", "tag", &updates.source_tag);
    assert(toml_strings(*doc) == fields_set(m0, *updates));
    assert(toml_tops(*doc) =~= rewritten_tops(t0, *updates));
    let ghost t1 = toml_tops(*doc);
    assert("runtime"@[0] != "package"@[0] && "runtime"@ != "source"@);
    assert(t1.contains_key("runtime"@) == t0.contains_key("runtime"@));
    assert(t1.contains_key("runtime"@) ==> t1["runtime"@] == t0["runtime"@]);
    if let Some(vars) = &updates.runtime_vars {
        if top_entry(doc, "runtime").is_some() {
            let mut i: usize = 0;
            while i < vars.len()
                invariant
                    i <= vars.len(),
                    t1.contains_key("runtime"@) && t1["runtime"@],
                    toml_tops(*doc) == t1,
                    toml_strings(*doc) == insert_vars(fields_set(m0, *updates), vars@.take(i as int)),
                decreases vars.len() - i,
            {
                let (k, v) = &vars[i];
                set_string(doc, "runtime", k.as_str(), v.as_str());
                proof {
                    assert(vars@.take(i + 1).drop_last() =~= vars@.take(i as int));
                    assert(toml_tops(*doc) =~= t1);
                }
                i = i + 1;
            }
            assert(vars@.take(vars.len() as int) =~= vars@);
        }
    }
}

/// The document an update produces, as text: `Err` with the parser's
/// message when `content` is not a TOML document; `Ok(None)` when a table
/// the updates write to holds some other value (no edit is made then);
/// otherwise the text of the document with the fields written, which reads
/// back as the original document's strings and tables with the update
/// applied.
pub fn rewrite_toml(content: &str, updates: &TomlUpdates) -> (r: Result<Option<String>, String>)
    ensures
        r is Err <==> toml_parse(content@) is None,
        r matches Ok(o) ==> (o is Some <==> updates_fit(toml_parse(content@)->Some_0.1, *updates)),
        r matches Ok(Some(t)) ==> toml_parse(t@) == Some((
            rewritten_strings(toml_parse(content@)->Some_0.0, toml_parse(content@)->Some_0.1, *updates),
            rewritten_tops(toml_parse(content@)->Some_0.1, *updates),
        )),
{
    proof {
        reveal_strlit("package");
        reveal_strlit("source");
        reveal_strlit("runtime");
    }
    let mut doc = match parse_document(content) {
        Ok(d) => d,
        Err(e) => return Err(e),
    };
    let writes_package = updates.version.is_some() || updates.revision.is_some();
    let writes_source = updates.source_url.is_some() || updates.source_hash.is_some() || updates.source_tag.is_some();
    if writes_package && top_entry(&doc, "package") == Some(false) {
        return Ok(None);
    }
    if writes_source && top_entry(&doc, "source") == Some(false) {
        return Ok(None);
    }
    if updates.runtime_vars.is_some() && top_entry(&doc, "runtime") == Some(false) {
        return Ok(None);
    }
    rewrite_document(&mut doc, updates);
    Ok(Some(document_text(&doc)))
}

proof fn lemma_insert_vars_other_tables(
    m: Map<(Seq<char>, Seq<char>), Seq<char>>,
    vars: Seq<(String, String)>,
    key: (Seq<char>, Seq<char>),
)
    requires
        key.0 != "runtime"@,
    ensures
        insert_vars(m, vars).contains_key(key) == m.contains_key(key),
        m.contains_key(key) ==> insert_vars(m, vars)[key] == m[key],
    decreases vars.len(),
{
    if vars.len() > 0 {
        lemma_insert_vars_other_tables(m, vars.drop_last(), key);
    }
}

proof fn lemma_rewritten_agrees(
    m: Map<(Seq<char>, Seq<char>), Seq<char>>,
    tops: Map<Seq<char>, bool>,
    u: TomlUpdates,
    key: (Seq<char>, Seq<char>),
)
    requires
        key.0 != "runtime"@,
    ensures
        rewritten_strings(m, tops, u).contains_key(key) == fields_set(m, u).contains_key(key),
        fields_set(m, u).contains_key(key) ==> rewritten_strings(m, tops, u)[key] == fields_set(m, u)[key],
{
    if let Some(vars) = u.runtime_vars {
        lemma_insert_vars_other_tables(fields_set(m, u), vars@, key);
    }
}

/// An update reads back: each package and source field it gives is what
/// the document then holds under that table and key, and every key of
/// any other table than `package`, `source` and `runtime` keeps its value.
pub proof fn lemma_rewrite_reads_back(
    m: Map<(Seq<char>, Seq<char>), Seq<char>>,
    tops: Map<Seq<char>, bool>,
    u: TomlUpdates,
)
    ensures
        u.version matches Some(v) ==> rewritten_strings(m, tops, u).contains_key(("package"@, "version"@))
            && rewritten_strings(m, tops, u)[("package"@, "version"@)] == v@,
        u.revision matches Some(v) ==> rewritten_strings(m, tops, u).contains_key(("package"@, "revision"@))
            && rewritten_strings(m, tops, u)[("package"@, "revision"@)] == v@,
        u.source_url matches Some(v) ==> rewritten_strings(m, tops, u).contains_key(("source"@, "url"@))
            && rewritten_strings(m, tops, u)[("source"@, "url"@)] == v@,
        u.source_hash matches Some(v) ==> rewritten_strings(m, tops, u).contains_key(("source"@, "hash"@))
            && rewritten_strings(m, tops, u)[("source"@, "hash"@)] == v@,
        u.source_tag matches Some(v) ==> rewritten_strings(m, tops, u).contains_key(("source"@, "tag"@))
            && rewritten_strings(m, tops, u)[("source"@, "tag"@)] == v@,
        forall|t: Seq<char>, k: Seq<char>| #![trigger rewritten_strings(m, tops, u).contains_key((t, k))]
            t != "package"@ && t != "source"@ && t != "runtime"@ ==> {
                &&& rewritten_strings(m, tops, u).contains_key((t, k)) == m.contains_key((t, k))
                &&& m.contains_key((t, k)) ==> rewritten_strings(m, tops, u)[(t, k)] == m[(t, k)]
            },
{
    reveal_strlit("package");
    reveal_strlit("source");
    reveal_strlit("runtime");
    reveal_strlit("version");
    reveal_strlit("revision");
    reveal_strlit("url");
    reveal_strlit("hash");
    reveal_strlit("tag");
    assert("package"@[0] != "runtime"@[0] && "package"@ != "source"@ && "source"@ != "runtime"@);
    assert("url"@[0] != "tag"@[0]);
    assert("version"@.len() != "revision"@.len());
    assert("url"@.len() != "hash"@.len() && "hash"@.len() != "tag"@.len());
    assert("version"@ != "revision"@);
    assert("url"@ != "hash"@);
    assert("url"@ != "tag"@);
    assert("hash"@ != "tag"@);
    let f = fields_set(m, u);
    lemma_rewritten_agrees(m, tops, u, ("package"@, "version"@));
    lemma_rewritten_agrees(m, tops, u, ("package"@, "revision"@));
    lemma_rewritten_agrees(m, tops, u, ("source"@, "url"@));
    lemma_rewritten_agrees(m, tops, u, ("source"@, "hash"@));
    lemma_rewritten_agrees(m, tops, u, ("source"@, "tag"@));
    assert forall|t: Seq<char>, k: Seq<char>| #![trigger rewritten_strings(m, tops, u).contains_key((t, k))]
        t != "package"@ && t != "source"@ && t != "runtime"@ implies {
            &&& rewritten_strings(m, tops, u).contains_key((t, k)) == m.contains_key((t, k))
            &&& m.contains_key((t, k)) ==> rewritten_strings(m, tops, u)[(t, k)] == m[(t, k)]
        } by {
        lemma_rewritten_agrees(m, tops, u, (t, k));
        assert((t, k) != ("package"@, "version"@) && (t, k) != ("package"@, "revision"@));
        assert((t, k) != ("source"@, "url"@) && (t, k) != ("source"@, "hash"@) && (t, k) != ("source"@, "tag"@));
        assert(f.contains_key((t, k)) == m.contains_key((t, k)));
        assert(m.contains_key((t, k)) ==> f[(t, k)] == m[(t, k)]);
    }
}

} // verus!
