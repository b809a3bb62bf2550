//! The project manifest, edited in memory with `toml_edit` and written once.
//!
//! A document is modelled by two views over key paths (sequences of keys):
//! the string values it holds, and the paths at which it holds an item that
//! is not a table, under which no key can be added.

use vstd::prelude::*;
use crate::error::VendorError;

verus! {

#[verifier::external_type_specification]
#[verifier::external_body]
pub struct ExDocumentMut(toml_edit::DocumentMut);

#[verifier::external_type_specification]
#[verifier::external_body]
pub struct ExTomlError(toml_edit::TomlError);

/// A path of keys from the document root.
pub type KeyPath = Seq<Seq<char>>;

/// Whether `toml_edit` accepts the text as a TOML document.
pub uninterp spec fn manifest_parses(text: Seq<char>) -> bool;

/// The string values of a document, by key path.
pub uninterp spec fn doc_strings(d: toml_edit::DocumentMut) -> Map<KeyPath, Seq<char>>;

/// The key paths at which a document holds an item that is neither a table
/// nor an inline table.
pub uninterp spec fn doc_leaves(d: toml_edit::DocumentMut) -> Set<KeyPath>;

/// The string values, by key path, of the document that `toml_edit` reads
/// from the text.
pub uninterp spec fn text_strings(text: Seq<char>) -> Map<KeyPath, Seq<char>>;

/// The key paths of non-table items in the document that `toml_edit` reads
/// from the text.
pub uninterp spec fn text_leaves(text: Seq<char>) -> Set<KeyPath>;

/// The text that `toml_edit` writes for a document.
pub uninterp spec fn doc_text(d: toml_edit::DocumentMut) -> Seq<char>;

/// `p` is a proper prefix of `k`.
pub open spec fn strictly_under(k: KeyPath, p: KeyPath) -> bool {
    p.len() < k.len() && k.take(p.len() as int) == p
}

/// String values after the item at `p` is replaced by the string `v`.
pub open spec fn assign_string(m: Map<KeyPath, Seq<char>>, p: KeyPath, v: Seq<char>) -> Map<
    KeyPath,
    Seq<char>,
> {
    Map::new(|k: KeyPath| m.dom().contains(k) && !strictly_under(k, p), |k: KeyPath| m[k]).insert(p, v)
}

/// Leaf paths after the item at `p` is replaced by a string.
pub open spec fn assign_leaf(s: Set<KeyPath>, p: KeyPath) -> Set<KeyPath> {
    s.filter(|k: KeyPath| !strictly_under(k, p)).insert(p)
}

/// The key path `patch.<source>.<package>.<field>`.
pub open spec fn patch_key(source: Seq<char>, package: Seq<char>, field: Seq<char>) -> KeyPath {
    seq!["patch"@, source, package, field]
}

/// No proper prefix of `patch.<source>.<package>.*` holds a non-table item.
pub open spec fn patch_slot_free(leaves: Set<KeyPath>, source: Seq<char>, package: Seq<char>) -> bool {
    &&& !leaves.contains(seq!["patch"@])
    &&& !leaves.contains(seq!["patch"@, source])
    &&& !leaves.contains(seq!["patch"@, source, package])
}

/// Relies on `FromStr` for toml_edit::DocumentMut, which accepts or rejects by
/// the text alone.
#[verifier::external_body]
fn parse_document(text: &str) -> (r: Result<toml_edit::DocumentMut, toml_edit::TomlError>)
    ensures
        r is Ok <==> manifest_parses(text@),
        r matches Ok(d) ==> doc_strings(d) == text_strings(text@),
        r matches Ok(d) ==> doc_leaves(d) == text_leaves(text@),
{
    text.parse::<toml_edit::DocumentMut>()
}

/// Relies on toml_edit's `IndexMut` for `DocumentMut` and `Item` with `&str`
/// keys, and on `toml_edit::value`: missing tables on the way are created,
/// and the item at the end is replaced by the string. Indexing panics through
/// an item that is not a table, which `requires` excludes.
#[verifier::external_body]
fn set_patch_string(doc: &mut toml_edit::DocumentMut, source: &str, package: &str, field: &str, text: &str)
    requires
        patch_slot_free(doc_leaves(*old(doc)), source@, package@),
    ensures
        doc_strings(*final(doc)) == assign_string(
            doc_strings(*old(doc)),
            patch_key(source@, package@, field@),
            text@,
        ),
        doc_leaves(*final(doc)) == assign_leaf(doc_leaves(*old(doc)), patch_key(source@, package@, field@)),
{
    doc["patch"][source][package][field] = toml_edit::value(text);
}

/// Relies on toml_edit's `Item::get` with `&str` keys, which steps only into
/// tables and inline tables and gives `None` otherwise or for a missing key,
/// and on `Item::is_table_like`: whether the key path from the root leads to
/// an item that is neither a table nor an inline table.
#[verifier::external_body]
fn holds_leaf(doc: &toml_edit::DocumentMut, path: &Vec<String>) -> (r: bool)
    ensures
        r == doc_leaves(*doc).contains(path@.map_values(|k: String| k@)),
{
    let mut item = doc.as_item();
    for key in path.iter() {
        match item.get(key.as_str()) {
            Some(next) => item = next,
            None => return false,
        }
    }
    !item.is_table_like()
}

/// Relies on `Display` for toml_edit::DocumentMut, which writes the document
/// back with the formatting of its untouched parts.
#[verifier::external_body]
fn render_document(doc: &toml_edit::DocumentMut) -> (r: String)
    ensures
        r@ == doc_text(*doc),
{
    doc.to_string()
}

/// One override to record: `patch.<source>.<package>.path`, and `.version`
/// when the request carried a range.
pub struct PatchEdit {
    pub source: String,
    pub package: String,
    pub path: String,
    pub version: Option<String>,
}

/// String values after `e` is recorded.
pub open spec fn staged_strings(m: Map<KeyPath, Seq<char>>, e: PatchEdit) -> Map<KeyPath, Seq<char>> {
    let with_path = assign_string(m, patch_key(e.source@, e.package@, "path"@), e.path@);
    match e.version {
        Some(v) => assign_string(with_path, patch_key(e.source@, e.package@, "version"@), v@),
        None => with_path,
    }
}

/// Leaf paths after `e` is recorded.
pub open spec fn staged_leaves(s: Set<KeyPath>, e: PatchEdit) -> Set<KeyPath> {
    let with_path = assign_leaf(s, patch_key(e.source@, e.package@, "path"@));
    match e.version {
        Some(_) => assign_leaf(with_path, patch_key(e.source@, e.package@, "version"@)),
        None => with_path,
    }
}

proof fn lemma_slot_stays_free(s: Set<KeyPath>, source: Seq<char>, package: Seq<char>, field: Seq<char>)
    requires
        patch_slot_free(s, source, package),
    ensures
        patch_slot_free(assign_leaf(s, patch_key(source, package, field)), source, package),
{
    let k = patch_key(source, package, field);
    assert(k.len() == 4);
    assert(seq!["patch"@].len() == 1);
    assert(seq!["patch"@, source].len() == 2);
    assert(seq!["patch"@, source, package].len() == 3);
}

proof fn lemma_path_version_apart(source: Seq<char>, package: Seq<char>)
    ensures
        patch_key(source, package, "path"@) != patch_key(source, package, "version"@),
        !strictly_under(patch_key(source, package, "path"@), patch_key(source, package, "version"@)),
        !strictly_under(patch_key(source, package, "version"@), patch_key(source, package, "path"@)),
{
    reveal_strlit("path");
    reveal_strlit("version");
    assert("path"@.len() != "version"@.len());
    assert(patch_key(source, package, "path"@)[3] == "path"@);
    assert(patch_key(source, package, "version"@)[3] == "version"@);
    assert(patch_key(source, package, "path"@).len() == 4);
    assert(patch_key(source, package, "version"@).len() == 4);
}

/// Recording an override sets `patch.<source>.<package>.path` to the local
/// path and, when a range was given, `.version` to its canonical text.
pub proof fn lemma_staged_entries(m: Map<KeyPath, Seq<char>>, e: PatchEdit)
    ensures
        staged_strings(m, e).dom().contains(patch_key(e.source@, e.package@, "path"@)),
        staged_strings(m, e)[patch_key(e.source@, e.package@, "path"@)] == e.path@,
        e.version matches Some(v) ==> staged_strings(m, e)[patch_key(e.source@, e.package@, "version"@)] == v@,
        e.version is None ==> (staged_strings(m, e).dom().contains(patch_key(e.source@, e.package@, "version"@))
            <==> m.dom().contains(patch_key(e.source@, e.package@, "version"@))),
{
    lemma_path_version_apart(e.source@, e.package@);
}

/// Recording an override leaves every string value whose key path is neither
/// one of the two entries written nor below them as it was.
pub proof fn lemma_stage_keeps_unrelated(m: Map<KeyPath, Seq<char>>, e: PatchEdit, k: KeyPath)
    requires
        k != patch_key(e.source@, e.package@, "path"@),
        k != patch_key(e.source@, e.package@, "version"@),
        !strictly_under(k, patch_key(e.source@, e.package@, "path"@)),
        !strictly_under(k, patch_key(e.source@, e.package@, "version"@)),
    ensures
        staged_strings(m, e).dom().contains(k) <==> m.dom().contains(k),
        m.dom().contains(k) ==> staged_strings(m, e)[k] == m[k],
{
}

/// Recording the same override a second time changes nothing more.
pub proof fn lemma_stage_twice(m: Map<KeyPath, Seq<char>>, e: PatchEdit)
    ensures
        staged_strings(staged_strings(m, e), e) == staged_strings(m, e),
{
    lemma_path_version_apart(e.source@, e.package@);
    let once = staged_strings(m, e);
    let twice = staged_strings(once, e);
    assert(twice =~= once);
}

/// The manifest being edited: edits accumulate in memory and the text for
/// the single write comes from `commit`.
pub struct ManifestPatch {
    doc: toml_edit::DocumentMut,
}

impl ManifestPatch {
    /// The string values of the edited document.
    pub closed spec fn strings(&self) -> Map<KeyPath, Seq<char>> {
        doc_strings(self.doc)
    }

    /// The key paths of its non-table items.
    pub closed spec fn leaves(&self) -> Set<KeyPath> {
        doc_leaves(self.doc)
    }

    /// The text of the edited document.
    pub closed spec fn text(&self) -> Seq<char> {
        doc_text(self.doc)
    }

    /// Reads the manifest text; text that is not TOML is `ManifestParse`.
    pub fn load(text: &str) -> (r: Result<ManifestPatch, VendorError>)
        ensures
            r is Ok <==> manifest_parses(text@),
            r matches Ok(m) ==> m.strings() == text_strings(text@),
            r matches Ok(m) ==> m.leaves() == text_leaves(text@),
            r matches Err(e) ==> e is ManifestParse,
    {
        match parse_document(text) {
            Ok(doc) => Ok(ManifestPatch { doc }),
            Err(_) => Err(VendorError::ManifestParse),
        }
    }

    /// Records one override. Every other string value and leaf is kept; only
    /// what lay under the two entries written is replaced.
    pub fn stage(&mut self, e: &PatchEdit)
        requires
            patch_slot_free(old(self).leaves(), e.source@, e.package@),
        ensures
            final(self).strings() == staged_strings(old(self).strings(), *e),
            final(self).leaves() == staged_leaves(old(self).leaves(), *e),
    {
        set_patch_string(&mut self.doc, e.source.as_str(), e.package.as_str(), "path", e.path.as_str());
        proof {
            reveal_strlit("path");
        }
        match &e.version {
            Some(v) => {
                proof {
                    lemma_slot_stays_free(old(self).leaves(), e.source@, e.package@, "path"@);
                }
                set_patch_string(&mut self.doc, e.source.as_str(), e.package.as_str(), "version", v.as_str());
            },
            None => {},
        }
    }

    /// Whether an override for `package` from `source` can be recorded:
    /// `patch`, `patch.<source>` and `patch.<source>.<package>` are each
    /// absent or a table.
    pub fn slot_free(&self, source: &str, package: &str) -> (r: bool)
        ensures
            r == patch_slot_free(self.leaves(), source@, package@),
    {
        let mut path: Vec<String> = Vec::new();
        path.push(String::from_str("patch"));
        proof {
            reveal_strlit("patch");
            assert(path@.map_values(|k: String| k@) =~= seq!["patch"@]);
        }
        let a = holds_leaf(&self.doc, &path);
        path.push(source.to_string());
        proof {
            assert(path@.map_values(|k: String| k@) =~= seq!["patch"@, source@]);
        }
        let b = holds_leaf(&self.doc, &path);
        path.push(package.to_string());
        proof {
            assert(path@.map_values(|k: String| k@) =~= seq!["patch"@, source@, package@]);
        }
        let c = holds_leaf(&self.doc, &path);
        !a && !b && !c
    }

    /// The whole document as text, for the one write at the end of a run.
    pub fn commit(&self) -> (r: String)
        ensures
            r@ == self.text(),
    {
        render_document(&self.doc)
    }
}

} // verus!
