//! A manifest: one resource of the must-gather as its name, its YAML text
//! and its parsed document. Reading a manifest drops the `managedFields`
//! bookkeeping from the metadata and puts metadata, spec and status last,
//! in that order, so that the text shown reads in the familiar order.
use crate::names::{has_suffix, vec_has_suffix};
use crate::resources::{copy_string, or_text, str_eq};
use crate::text::{chars_of, push_char};
use crate::yaml::{
    dump_document, entries_lookup, entries_view, hash_of, items_view, key_index, key_views, key_position,
    lemma_array_view, lemma_hash_view, lemma_key_index, load_documents, lookup, lookup_path,
    bool_of, str_of, vec_of, yaml_documents, yaml_dumped, YamlValue, YamlView,
};
use vstd::prelude::*;

verus! {

// ---------------------------------------------------------------------------
// Mapping edits
// ---------------------------------------------------------------------------
/// The entries without the first one whose key is `key` (`LinkedHashMap::remove`).
pub open spec fn remove_key(entries: Seq<(YamlView, YamlView)>, key: Seq<char>) -> Seq<
    (YamlView, YamlView),
> {
    match key_index(entries, key) {
        Some(i) => entries.remove(i),
        None => entries,
    }
}

/// The entries with `key` removed and then inserted again, last, with
/// `value`.
pub open spec fn set_last(entries: Seq<(YamlView, YamlView)>, key: Seq<char>, value: YamlView) -> Seq<
    (YamlView, YamlView),
> {
    remove_key(entries, key).push((YamlView::String(key), value))
}

/// The entries with the entry under `key` moved last when its value is a
/// mapping; unchanged otherwise.
pub open spec fn move_hash_last(entries: Seq<(YamlView, YamlView)>, key: Seq<char>) -> Seq<
    (YamlView, YamlView),
> {
    match entries_lookup(entries, key) {
        Some(YamlView::Hash(h)) => set_last(entries, key, YamlView::Hash(h)),
        _ => entries,
    }
}

/// The document's metadata has a `managedFields` list.
pub open spec fn has_managed_fields(doc: YamlView) -> bool {
    vec_of(lookup_path(Some(doc), seq!["metadata"@, "managedFields"@])) is Some
}

/// The document with `metadata.managedFields` removed and the metadata,
/// spec and status entries moved last, in that order (spec and status only
/// when they are mappings).
pub open spec fn without_managed_fields(doc: YamlView) -> YamlView {
    let entries = match doc {
        YamlView::Hash(e) => e,
        _ => Seq::empty(),
    };
    let metadata = match lookup(doc, "metadata"@) {
        Some(YamlView::Hash(m)) => m,
        _ => Seq::empty(),
    };
    let e1 = set_last(
        entries,
        "metadata"@,
        YamlView::Hash(remove_key(metadata, "managedFields"@)),
    );
    YamlView::Hash(move_hash_last(move_hash_last(e1, "spec"@), "status"@))
}

/// The document as a manifest keeps it: without managed fields when it has
/// them, as it is otherwise.
pub open spec fn tidied(doc: YamlView) -> YamlView {
    if has_managed_fields(doc) {
        without_managed_fields(doc)
    } else {
        doc
    }
}

/// No two entries of a mapping have the same key, as in every mapping a
/// YAML document is read into.
pub open spec fn keys_distinct(entries: Seq<(YamlView, YamlView)>) -> bool {
    forall|i: int, j: int| 0 <= i < j < entries.len() ==> entries[i].0 != entries[j].0
}

/// The document's mapping and its metadata mapping have distinct keys.
pub open spec fn well_keyed(doc: YamlView) -> bool {
    &&& match doc {
        YamlView::Hash(e) => keys_distinct(e),
        _ => true,
    }
    &&& match lookup(doc, "metadata"@) {
        Some(YamlView::Hash(m)) => keys_distinct(m),
        _ => true,
    }
}

proof fn lemma_lookup_none(e: Seq<(YamlView, YamlView)>, k: Seq<char>)
    requires
        forall|j: int| 0 <= j < e.len() ==> e[j].0 != YamlView::String(k),
    ensures
        entries_lookup(e, k) is None,
    decreases e.len(),
{
    if e.len() > 0 {
        assert forall|j: int| 0 <= j < e.drop_first().len() implies e.drop_first()[j].0
            != YamlView::String(k) by {
            assert(e.drop_first()[j] == e[j + 1]);
        }
        lemma_lookup_none(e.drop_first(), k);
    }
}

proof fn lemma_lookup_remove_other(e: Seq<(YamlView, YamlView)>, i: int, k: Seq<char>)
    requires
        0 <= i < e.len(),
        e[i].0 != YamlView::String(k),
    ensures
        entries_lookup(e.remove(i), k) == entries_lookup(e, k),
    decreases e.len(),
{
    if i == 0 {
        assert(e.remove(0) =~= e.drop_first());
    } else {
        assert(e.remove(i)[0] == e[0]);
        if e[0].0 != YamlView::String(k) {
            assert(e.remove(i).drop_first() =~= e.drop_first().remove(i - 1));
            lemma_lookup_remove_other(e.drop_first(), i - 1, k);
        }
    }
}

proof fn lemma_lookup_push(e: Seq<(YamlView, YamlView)>, x: (YamlView, YamlView), k: Seq<char>)
    ensures
        entries_lookup(e.push(x), k) == match entries_lookup(e, k) {
            Some(v) => Some(v),
            None => if x.0 == YamlView::String(k) {
                Some(x.1)
            } else {
                None
            },
        },
    decreases e.len(),
{
    if e.len() > 0 {
        assert(e.push(x)[0] == e[0]);
        assert(e.push(x).drop_first() =~= e.drop_first().push(x));
        lemma_lookup_push(e.drop_first(), x, k);
    } else {
        assert(e.push(x)[0] == x);
        assert(e.push(x).drop_first() =~= Seq::<(YamlView, YamlView)>::empty());
        assert(entries_lookup(e.push(x).drop_first(), k) is None);
    }
}

/// With distinct keys, nothing is left under a key once it is removed.
proof fn lemma_removed_key_gone(e: Seq<(YamlView, YamlView)>, k: Seq<char>)
    requires
        keys_distinct(e),
    ensures
        entries_lookup(remove_key(e, k), k) is None,
{
    lemma_key_index(e, k);
    match key_index(e, k) {
        Some(i) => {
            let r = e.remove(i);
            assert forall|j: int| 0 <= j < r.len() implies r[j].0 != YamlView::String(k) by {
                if j < i {
                    assert(r[j] == e[j]);
                } else {
                    assert(r[j] == e[j + 1]);
                }
            }
            lemma_lookup_none(r, k);
        },
        None => {},
    }
}

/// Setting a key last gives its new value under it.
proof fn lemma_set_last_lookup(e: Seq<(YamlView, YamlView)>, k: Seq<char>, v: YamlView)
    requires
        keys_distinct(e),
    ensures
        entries_lookup(set_last(e, k, v), k) == Some(v),
{
    lemma_removed_key_gone(e, k);
    lemma_lookup_push(remove_key(e, k), (YamlView::String(k), v), k);
}

/// Moving another key's mapping last leaves the lookup of `k` as it was.
proof fn lemma_move_other_lookup(e: Seq<(YamlView, YamlView)>, other: Seq<char>, k: Seq<char>)
    requires
        other != k,
    ensures
        entries_lookup(move_hash_last(e, other), k) == entries_lookup(e, k),
{
    match entries_lookup(e, other) {
        Some(YamlView::Hash(h)) => {
            lemma_key_index(e, other);
            match key_index(e, other) {
                Some(i) => {
                    assert(e[i].0 != YamlView::String(k));
                    lemma_lookup_remove_other(e, i, k);
                },
                None => {},
            }
            lemma_lookup_push(remove_key(e, other), (YamlView::String(other), YamlView::Hash(h)), k);
        },
        _ => {},
    }
}

/// A manifest's document holds no managed fields: reading drops them
/// (mapping keys are distinct, as yaml_rust keeps them).
pub proof fn lemma_tidied_drops_managed_fields(doc: YamlView)
    requires
        well_keyed(doc),
    ensures
        !has_managed_fields(tidied(doc)),
        lookup_path(Some(tidied(doc)), seq!["metadata"@, "name"@]) == lookup_path(
            Some(doc),
            seq!["metadata"@, "name"@],
        ),
{
    if has_managed_fields(doc) {
        let entries = match doc {
            YamlView::Hash(e) => e,
            _ => Seq::empty(),
        };
        let metadata = match lookup(doc, "metadata"@) {
            Some(YamlView::Hash(m)) => m,
            _ => Seq::empty(),
        };
        assert(keys_distinct(entries));
        assert(keys_distinct(metadata));
        let m2 = remove_key(metadata, "managedFields"@);
        let e1 = set_last(entries, "metadata"@, YamlView::Hash(m2));
        lemma_set_last_lookup(entries, "metadata"@, YamlView::Hash(m2));
        let e2 = move_hash_last(e1, "spec"@);
        assert("spec"@ != "metadata"@) by {
            reveal_strlit("spec");
            reveal_strlit("metadata");
            assert("spec"@.len() != "metadata"@.len());
        }
        assert("status"@ != "metadata"@) by {
            reveal_strlit("status");
            reveal_strlit("metadata");
            assert("status"@.len() != "metadata"@.len());
        }
        lemma_move_other_lookup(e1, "spec"@, "metadata"@);
        lemma_move_other_lookup(e2, "status"@, "metadata"@);
        lemma_removed_key_gone(metadata, "managedFields"@);
        assert("name"@ != "managedFields"@) by {
            reveal_strlit("name");
            reveal_strlit("managedFields");
            assert("name"@.len() != "managedFields"@.len());
        }
        lemma_key_index(metadata, "managedFields"@);
        match key_index(metadata, "managedFields"@) {
            Some(i) => {
                assert(metadata[i].0 != YamlView::String("name"@));
                lemma_lookup_remove_other(metadata, i, "name"@);
            },
            None => {},
        }
        let e3 = move_hash_last(e2, "status"@);
        let t = tidied(doc);
        assert(t == YamlView::Hash(e3));
        assert(lookup(t, "metadata"@) == Some(YamlView::Hash(m2)));
        let mf = seq!["metadata"@, "managedFields"@];
        assert(mf.drop_first() =~= seq!["managedFields"@]);
        assert(seq!["managedFields"@].drop_first() =~= Seq::<Seq<char>>::empty());
        let nm = seq!["metadata"@, "name"@];
        assert(nm.drop_first() =~= seq!["name"@]);
        assert(seq!["name"@].drop_first() =~= Seq::<Seq<char>>::empty());
        assert(lookup(doc, "metadata"@) == Some(YamlView::Hash(metadata))) by {
            assert(lookup_path(Some(doc), mf) == lookup_path(lookup(doc, "metadata"@), mf.drop_first()));
            match lookup(doc, "metadata"@) {
                Some(YamlView::Hash(m)) => {},
                Some(other) => {
                    assert(lookup_path(Some(other), seq!["managedFields"@]) == lookup_path(
                        lookup(other, "managedFields"@),
                        Seq::<Seq<char>>::empty(),
                    ));
                },
                None => {},
            }
        }
        assert(lookup_path(Some(t), mf) == lookup_path(lookup(t, "metadata"@), mf.drop_first()));
        assert(lookup_path(Some(YamlView::Hash(m2)), seq!["managedFields"@]) == lookup_path(
            lookup(YamlView::Hash(m2), "managedFields"@),
            Seq::<Seq<char>>::empty(),
        ));
        assert(lookup_path(Some(t), nm) == lookup_path(lookup(t, "metadata"@), nm.drop_first()));
        assert(lookup_path(Some(doc), nm) == lookup_path(lookup(doc, "metadata"@), nm.drop_first()));
        assert(lookup_path(Some(YamlView::Hash(m2)), seq!["name"@]) == lookup_path(
            lookup(YamlView::Hash(m2), "name"@),
            Seq::<Seq<char>>::empty(),
        ));
        assert(lookup_path(Some(YamlView::Hash(metadata)), seq!["name"@]) == lookup_path(
            lookup(YamlView::Hash(metadata), "name"@),
            Seq::<Seq<char>>::empty(),
        ));
    }
}

/// `metadata.name`, or `"Unknown"`.
pub open spec fn doc_name(doc: YamlView) -> Seq<char> {
    or_text(str_of(lookup_path(Some(doc), seq!["metadata"@, "name"@])), "Unknown"@)
}

/// Removes the entry under `key`, if there is one.
fn remove_entry(entries: &mut Vec<(YamlValue, YamlValue)>, key: &str)
    ensures
        entries_view(final(entries)@) == remove_key(entries_view(old(entries)@), key@),
{
    let ghost before = entries_view(entries@);
    proof {
        lemma_key_index(before, key@);
    }
    match key_position(entries, key) {
        Some(i) => {
            entries.remove(i);
            assert(entries_view(entries@) =~= before.remove(i as int));
        },
        None => {},
    }
}

/// Moves the entry under `key` last when its value is a mapping.
fn move_hash_to_back(entries: &mut Vec<(YamlValue, YamlValue)>, key: &str)
    ensures
        entries_view(final(entries)@) == move_hash_last(entries_view(old(entries)@), key@),
{
    let ghost before = entries_view(entries@);
    proof {
        lemma_key_index(before, key@);
    }
    match key_position(entries, key) {
        Some(i) => {
            let is_hash = match &entries[i].1 {
                YamlValue::Hash(_) => true,
                _ => false,
            };
            if is_hash {
                let e = entries.remove(i);
                let ghost ev = (e.0@, e.1@);
                entries.push(e);
                assert(ev == before[i as int]);
                assert(entries_view(entries@) =~= before.remove(i as int).push(ev));
            }
        },
        None => {},
    }
}

/// Drops `metadata.managedFields` and moves metadata, spec and status last.
fn tidy_document(doc: YamlValue) -> (r: YamlValue)
    requires
        has_managed_fields(doc@),
    ensures
        r@ == without_managed_fields(doc@),
{
    proof {
        reveal_with_fuel(lookup_path, 3);
        assert(lookup(doc@, "metadata"@) is Some);
    }
    match doc {
        YamlValue::Hash(mut entries) => {
            let ghost before = entries_view(entries@);
            proof {
                lemma_hash_view(entries);
                lemma_key_index(before, "metadata"@);
            }
            let ghost metadata_spec = match lookup(doc@, "metadata"@) {
                Some(YamlView::Hash(m)) => m,
                _ => Seq::empty(),
            };
            match key_position(&entries, "metadata") {
                Some(i) => {
                    let (k, v) = entries.remove(i);
                    assert(entries_view(entries@) =~= before.remove(i as int));
                    let ghost kv = k@;
                    assert(kv == YamlView::String("metadata"@));
                    assert(v@ == before[i as int].1);
                    let mut metadata = match v {
                        YamlValue::Hash(m) => {
                            proof {
                                lemma_hash_view(m);
                            }
                            m
                        },
                        _ => Vec::new(),
                    };
                    assert(entries_view(metadata@) =~= metadata_spec);
                    remove_entry(&mut metadata, "managedFields");
                    let ghost mv = entries_view(metadata@);
                    proof {
                        lemma_hash_view(metadata);
                    }
                    let ghost mid = entries_view(entries@);
                    entries.push((k, YamlValue::Hash(metadata)));
                    assert(entries_view(entries@) =~= mid.push((kv, YamlView::Hash(mv))));
                    assert(entries_view(entries@) == set_last(
                        before,
                        "metadata"@,
                        YamlView::Hash(remove_key(metadata_spec, "managedFields"@)),
                    ));
                },
                None => {
                    assert(false);
                },
            }
            move_hash_to_back(&mut entries, "spec");
            move_hash_to_back(&mut entries, "status");
            proof {
                lemma_hash_view(entries);
            }
            YamlValue::Hash(entries)
        },
        other => other,
    }
}

// ---------------------------------------------------------------------------
// Manifests
// ---------------------------------------------------------------------------
/// One resource manifest: its name, its YAML text and its document.
#[derive(Debug)]
pub struct Manifest {
    pub name: String,
    pub raw: String,
    pub yaml: Option<YamlValue>,
}

pub struct ManifestView {
    pub name: Seq<char>,
    pub raw: Seq<char>,
    pub yaml: Option<YamlView>,
}

impl View for Manifest {
    type V = ManifestView;

    open spec fn view(&self) -> ManifestView {
        ManifestView {
            name: self.name@,
            raw: self.raw@,
            yaml: match self.yaml {
                Some(y) => Some(y@),
                None => None,
            },
        }
    }
}

impl DeepView for Manifest {
    type V = ManifestView;

    open spec fn deep_view(&self) -> ManifestView {
        self@
    }
}

/// Why a manifest could not be read from a text.
#[derive(Debug)]
pub enum ManifestError {
    /// The YAML scanner rejected the text; its message.
    Yaml(String),
    /// The text holds no YAML document.
    NoDocuments,
}

pub enum ManifestErrorView {
    Yaml(Seq<char>),
    NoDocuments,
}

impl View for ManifestError {
    type V = ManifestErrorView;

    open spec fn view(&self) -> ManifestErrorView {
        match self {
            ManifestError::Yaml(m) => ManifestErrorView::Yaml(m@),
            ManifestError::NoDocuments => ManifestErrorView::NoDocuments,
        }
    }
}

impl ManifestError {
    /// The error's message.
    pub fn message(&self) -> (r: String)
        ensures
            r@ == match self@ {
                ManifestErrorView::Yaml(m) => m,
                ManifestErrorView::NoDocuments => "No YAML documents found"@,
            },
    {
        match self {
            ManifestError::Yaml(m) => copy_string(m),
            ManifestError::NoDocuments => String::from_str("No YAML documents found"),
        }
    }
}

/// The manifest made of a document read from `raw`: the text is printed
/// anew (with a final newline) when managed fields were dropped, and kept
/// when that printing fails or nothing was dropped.
pub open spec fn manifest_of_document(doc: YamlView, raw: Seq<char>) -> ManifestView {
    if has_managed_fields(doc) {
        let t = without_managed_fields(doc);
        ManifestView {
            name: doc_name(doc),
            raw: match yaml_dumped(t) {
                Some(s) => s.push('\n'),
                None => raw,
            },
            yaml: Some(t),
        }
    } else {
        ManifestView { name: doc_name(doc), raw, yaml: Some(doc) }
    }
}

/// The manifest read from a text: the first YAML document of it.
pub open spec fn manifest_of_text(raw: Seq<char>) -> Result<ManifestView, ManifestErrorView> {
    match yaml_documents(raw) {
        Err(e) => Err(ManifestErrorView::Yaml(e)),
        Ok(docs) => if docs.len() == 0 {
            Err(ManifestErrorView::NoDocuments)
        } else {
            Ok(manifest_of_document(docs[0], raw))
        },
    }
}

/// The view of a manifest result.
pub open spec fn manifest_result_view(r: Result<Manifest, ManifestError>) -> Result<
    ManifestView,
    ManifestErrorView,
> {
    match r {
        Ok(m) => Ok(m@),
        Err(e) => Err(e@),
    }
}

/// `metadata.name` of a document, or `"Unknown"`.
fn document_name(doc: &YamlValue) -> (r: String)
    ensures
        r@ == doc_name(doc@),
{
    let keys: [&str; 2] = ["metadata", "name"];
    assert(key_views(keys@) =~= seq!["metadata"@, "name"@]);
    match doc.at(&keys) {
        Some(n) => match n.as_str() {
            Some(s) => String::from_str(s),
            None => String::from_str("Unknown"),
        },
        None => String::from_str("Unknown"),
    }
}

/// Whether the document's metadata has a `managedFields` list.
fn document_has_managed_fields(doc: &YamlValue) -> (r: bool)
    ensures
        r == has_managed_fields(doc@),
{
    let keys: [&str; 2] = ["metadata", "managedFields"];
    assert(key_views(keys@) =~= seq!["metadata"@, "managedFields"@]);
    match doc.at(&keys) {
        Some(m) => m.as_vec().is_some(),
        None => false,
    }
}

impl Manifest {
    /// An empty manifest: no name, no text, no document.
    pub fn new() -> (r: Manifest)
        ensures
            r@ == (ManifestView { name: Seq::empty(), raw: Seq::empty(), yaml: None }),
    {
        Manifest { name: String::new(), raw: String::new(), yaml: None }
    }

    /// The manifest made of a document that was read from `raw`.
    pub fn from_document(doc: YamlValue, raw: String) -> (r: Manifest)
        ensures
            r@ == manifest_of_document(doc@, raw@),
    {
        let name = document_name(&doc);
        if document_has_managed_fields(&doc) {
            let yaml = tidy_document(doc);
            let raw = match dump_document(&yaml) {
                Some(out) => {
                    let mut out = out;
                    push_char(&mut out, '\n');
                    out
                },
                None => raw,
            };
            Manifest { name, raw, yaml: Some(yaml) }
        } else {
            Manifest { name, raw, yaml: Some(doc) }
        }
    }

    /// Reads a manifest from the text of a YAML file: its first document.
    pub fn from(raw: String) -> (r: Result<Manifest, ManifestError>)
        ensures
            manifest_result_view(r) == manifest_of_text(raw@),
    {
        match load_documents(raw.as_str()) {
            Err(e) => Err(ManifestError::Yaml(e)),
            Ok(docs) => {
                proof {
                    assert(yaml_documents(raw@) == Ok::<Seq<YamlView>, Seq<char>>(
                        items_view(docs@),
                    ));
                }
                if docs.len() == 0 {
                    Err(ManifestError::NoDocuments)
                } else {
                    let mut docs = docs;
                    let ghost first = docs@[0]@;
                    let doc = docs.remove(0);
                    assert(doc@ == first);
                    Ok(Manifest::from_document(doc, raw))
                }
            },
        }
    }
}

// ---------------------------------------------------------------------------
// Lists of manifests
// ---------------------------------------------------------------------------
/// An item of a list file as a manifest: tidied and printed anew, or
/// `None` when printing fails (such an item is left out).
pub open spec fn list_item_manifest(item: YamlView) -> Option<ManifestView> {
    let y = tidied(item);
    match yaml_dumped(y) {
        Some(s) => Some(ManifestView { name: doc_name(item), raw: s.push('\n'), yaml: Some(y) }),
        None => None,
    }
}

/// The manifests of the items of a list file, in order.
pub open spec fn list_item_manifests(items: Seq<YamlView>) -> Seq<ManifestView>
    decreases items.len(),
{
    if items.len() == 0 {
        Seq::empty()
    } else {
        let init = list_item_manifests(items.drop_last());
        match list_item_manifest(items.last()) {
            Some(m) => init.push(m),
            None => init,
        }
    }
}

/// The kind of the document ends with `List`.
pub open spec fn is_list_kind(doc: YamlView) -> bool {
    match str_of(lookup(doc, "kind"@)) {
        Some(k) => has_suffix(k, "List"@),
        None => false,
    }
}

/// The manifests read from a file that may hold a Kubernetes `List`: the
/// items when the first document has an `items` sequence; none when it is
/// a `...List` without one; else the one manifest of the document.
pub open spec fn manifests_of_list_text(raw: Seq<char>) -> Result<
    Seq<ManifestView>,
    ManifestErrorView,
> {
    match yaml_documents(raw) {
        Err(e) => Err(ManifestErrorView::Yaml(e)),
        Ok(docs) => if docs.len() == 0 {
            Err(ManifestErrorView::NoDocuments)
        } else {
            let doc = docs[0];
            match vec_of(lookup(doc, "items"@)) {
                Some(items) => Ok(list_item_manifests(items)),
                None => if is_list_kind(doc) {
                    Ok(Seq::empty())
                } else {
                    Ok(seq![manifest_of_document(doc, raw)])
                },
            }
        },
    }
}

/// The items of the document's `items` sequence, moved out of it.
fn take_items(doc: YamlValue) -> (r: Vec<YamlValue>)
    requires
        vec_of(lookup(doc@, "items"@)) is Some,
    ensures
        vec_of(lookup(doc@, "items"@)) == Some(items_view(r@)),
{
    match doc {
        YamlValue::Hash(mut entries) => {
            proof {
                lemma_hash_view(entries);
                lemma_key_index(entries_view(entries@), "items"@);
            }
            match key_position(&entries, "items") {
                Some(i) => {
                    let (_k, v) = entries.remove(i);
                    match v {
                        YamlValue::Array(a) => {
                            proof {
                                lemma_array_view(a);
                            }
                            a
                        },
                        _ => Vec::new(),
                    }
                },
                None => Vec::new(),
            }
        },
        _ => Vec::new(),
    }
}

/// The manifests of the items of a list file.
fn item_manifests(items: Vec<YamlValue>) -> (r: Vec<Manifest>)
    ensures
        r.deep_view() == list_item_manifests(items_view(items@)),
{
    let ghost all = items_view(items@);
    let mut out: Vec<Manifest> = Vec::new();
    let mut rest = items;
    let ghost mut k: int = 0;
    assert(all.skip(0) =~= all);
    assert(all.take(0) =~= Seq::<YamlView>::empty());
    while rest.len() > 0
        invariant
            0 <= k <= all.len(),
            items_view(rest@) == all.skip(k),
            out.deep_view() == list_item_manifests(all.take(k)),
        decreases rest.len(),
    {
        let ghost before_rest = rest@;
        assert(items_view(before_rest).len() == before_rest.len());
        assert(all.skip(k)[0] == all[k]);
        assert(items_view(before_rest)[0] == before_rest[0]@);
        let item = rest.remove(0);
        assert(item@ == all[k]);
        assert(rest@ =~= before_rest.drop_first());
        assert forall|j: int| 0 <= j < rest@.len() implies #[trigger] items_view(rest@)[j] == all.skip(
            k + 1,
        )[j] by {
            assert(items_view(before_rest)[j + 1] == all.skip(k)[j + 1]);
        }
        assert(items_view(rest@) =~= all.skip(k + 1));
        assert(all.take(k + 1).drop_last() =~= all.take(k));
        let name = document_name(&item);
        let yaml = if document_has_managed_fields(&item) {
            tidy_document(item)
        } else {
            item
        };
        let ghost before_out = out.deep_view();
        match dump_document(&yaml) {
            Some(text) => {
                let mut text = text;
                push_char(&mut text, '\n');
                out.push(Manifest { name, raw: text, yaml: Some(yaml) });
                assert(out.deep_view() =~= before_out.push(out@[out.len() - 1]@));
            },
            None => {},
        }
        proof {
            k = k + 1;
        }
    }
    assert(all.take(k) =~= all);
    out
}

/// The text ends with `List`.
fn ends_with_list(s: &str) -> (r: bool)
    ensures
        r == has_suffix(s@, "List"@),
{
    let cs = chars_of(s);
    let suffix = chars_of("List");
    vec_has_suffix(&cs, &suffix)
}

impl Manifest {
    /// Reads the manifests of a file that may hold a Kubernetes `List`.
    pub fn from_list(raw: String) -> (r: Result<Vec<Manifest>, ManifestError>)
        ensures
            match r {
                Ok(v) => manifests_of_list_text(raw@) == Ok::<
                    Seq<ManifestView>,
                    ManifestErrorView,
                >(v.deep_view()),
                Err(e) => manifests_of_list_text(raw@) == Err::<
                    Seq<ManifestView>,
                    ManifestErrorView,
                >(e@),
            },
    {
        match load_documents(raw.as_str()) {
            Err(e) => Err(ManifestError::Yaml(e)),
            Ok(docs) => {
                assert(yaml_documents(raw@) == Ok::<Seq<YamlView>, Seq<char>>(items_view(docs@)));
                if docs.len() == 0 {
                    return Err(ManifestError::NoDocuments);
                }
                let mut docs = docs;
                let ghost first = docs@[0]@;
                assert(items_view(docs@)[0] == first);
                let doc = docs.remove(0);
                assert(doc@ == first);
                let list_kind = match doc.get("kind") {
                    Some(k) => match k.as_str() {
                        Some(s) => ends_with_list(s),
                        None => false,
                    },
                    None => false,
                };
                let has_items = match doc.get("items") {
                    Some(i) => i.as_vec().is_some(),
                    None => false,
                };
                assert(list_kind == is_list_kind(first));
                assert(has_items == (vec_of(lookup(first, "items"@)) is Some));
                if has_items {
                    let items = take_items(doc);
                    let r = item_manifests(items);
                    assert(r.deep_view() == list_item_manifests(vec_of(lookup(first, "items"@))->0));
                    Ok(r)
                } else if list_kind {
                    let v: Vec<Manifest> = Vec::new();
                    assert(v.deep_view() =~= Seq::<ManifestView>::empty());
                    Ok(v)
                } else {
                    let m = Manifest::from_document(doc, raw);
                    let mut v: Vec<Manifest> = Vec::new();
                    v.push(m);
                    assert(v.deep_view() =~= seq![v@[0]@]);
                    Ok(v)
                }
            },
        }
    }
}

// ---------------------------------------------------------------------------
// What the resource readers ask of a manifest
// ---------------------------------------------------------------------------
/// The node at a path of keys in the manifest's document.
pub open spec fn doc_at(m: ManifestView, keys: Seq<Seq<char>>) -> Option<YamlView> {
    lookup_path(m.yaml, keys)
}

/// The items of `status.conditions`, or none.
pub open spec fn condition_nodes(m: ManifestView) -> Seq<YamlView> {
    match vec_of(doc_at(m, seq!["status"@, "conditions"@])) {
        Some(c) => c,
        None => Seq::empty(),
    }
}

/// The condition's type (`""` when it has none) is `t`.
pub open spec fn condition_type_is(c: YamlView, t: Seq<char>) -> bool {
    or_text(str_of(lookup(c, "type"@)), ""@) == t
}

/// Some condition has type `t`.
pub open spec fn manifest_has_condition(m: ManifestView, t: Seq<char>) -> bool {
    exists|i: int|
        0 <= i < condition_nodes(m).len() && condition_type_is(#[trigger] condition_nodes(m)[i], t)
}

/// The condition has type `t` and status `s`.
pub open spec fn condition_status_is(c: YamlView, t: Seq<char>, s: Seq<char>) -> bool {
    str_of(lookup(c, "type"@)) == Some(t) && str_of(lookup(c, "status"@)) == Some(s)
}

/// Some condition has type `t` and status `s`.
pub open spec fn manifest_has_condition_status(m: ManifestView, t: Seq<char>, s: Seq<char>) -> bool {
    exists|i: int|
        0 <= i < condition_nodes(m).len() && condition_status_is(
            #[trigger] condition_nodes(m)[i],
            t,
            s,
        )
}

/// A string under `metadata`.
pub open spec fn metadata_str(m: ManifestView, key: Seq<char>) -> Option<Seq<char>> {
    str_of(doc_at(m, seq!["metadata"@, key]))
}

/// The entries whose key and value are both strings, as pairs of text.
pub open spec fn string_pairs(entries: Seq<(YamlView, YamlView)>) -> Seq<(Seq<char>, Seq<char>)>
    decreases entries.len(),
{
    if entries.len() == 0 {
        Seq::empty()
    } else {
        let init = string_pairs(entries.drop_last());
        match (entries.last().0, entries.last().1) {
            (YamlView::String(k), YamlView::String(v)) => init.push((k, v)),
            _ => init,
        }
    }
}

/// The string entries of a mapping under `metadata`.
pub open spec fn metadata_pairs(m: ManifestView, key: Seq<char>) -> Seq<(Seq<char>, Seq<char>)> {
    match hash_of(doc_at(m, seq!["metadata"@, key])) {
        Some(h) => string_pairs(h),
        None => Seq::empty(),
    }
}

/// An owner reference entry as kind, name, uid and controller flag.
pub open spec fn owner_reference_of(e: YamlView) -> (
    Seq<char>,
    Seq<char>,
    Option<Seq<char>>,
    Option<bool>,
) {
    (
        or_text(str_of(lookup(e, "kind"@)), ""@),
        or_text(str_of(lookup(e, "name"@)), ""@),
        str_of(lookup(e, "uid"@)),
        bool_of(lookup(e, "controller"@)),
    )
}

/// The owner references with a kind and a name, in order.
pub open spec fn owner_references_of(items: Seq<YamlView>) -> Seq<
    (Seq<char>, Seq<char>, Option<Seq<char>>, Option<bool>),
>
    decreases items.len(),
{
    if items.len() == 0 {
        Seq::empty()
    } else {
        let init = owner_references_of(items.drop_last());
        let r = owner_reference_of(items.last());
        if r.0.len() > 0 && r.1.len() > 0 {
            init.push(r)
        } else {
            init
        }
    }
}

/// The owner reference entries under `metadata.ownerReferences`.
pub open spec fn manifest_owner_references(m: ManifestView) -> Seq<
    (Seq<char>, Seq<char>, Option<Seq<char>>, Option<bool>),
> {
    match vec_of(doc_at(m, seq!["metadata"@, "ownerReferences"@])) {
        Some(items) => owner_references_of(items),
        None => Seq::empty(),
    }
}

/// A condition entry as type, status, reason and message.
pub open spec fn condition_of(c: YamlView) -> (
    Seq<char>,
    Seq<char>,
    Option<Seq<char>>,
    Option<Seq<char>>,
) {
    (
        or_text(str_of(lookup(c, "type"@)), ""@),
        or_text(str_of(lookup(c, "status"@)), ""@),
        str_of(lookup(c, "reason"@)),
        str_of(lookup(c, "message"@)),
    )
}

/// All conditions of `status.conditions`, in order.
pub open spec fn manifest_conditions(m: ManifestView) -> Seq<
    (Seq<char>, Seq<char>, Option<Seq<char>>, Option<Seq<char>>),
> {
    condition_nodes(m).map_values(|c: YamlView| condition_of(c))
}

/// A copy of an optional string node's text.
pub(crate) fn str_node(v: Option<&YamlValue>) -> (r: Option<String>)
    ensures
        r.deep_view() == str_of(
            match v {
                Some(x) => Some(x@),
                None => None,
            },
        ),
{
    match v {
        Some(x) => match x.as_str() {
            Some(s) => Some(String::from_str(s)),
            None => None,
        },
        None => None,
    }
}

/// The text of an optional string node, or `""`.
pub(crate) fn str_node_or_empty(v: Option<&YamlValue>) -> (r: String)
    ensures
        r@ == or_text(
            str_of(
                match v {
                    Some(x) => Some(x@),
                    None => None,
                },
            ),
            ""@,
        ),
{
    proof {
        reveal_strlit("");
    }
    match str_node(v) {
        Some(s) => s,
        None => String::new(),
    }
}

impl Manifest {
    /// The document of the manifest; none where the manifest was made
    /// without one (the document is then taken as null).
    pub fn as_yaml(&self) -> (r: Option<&YamlValue>)
        ensures
            match r {
                Some(y) => self@.yaml == Some(y@),
                None => self@.yaml is None,
            },
    {
        match &self.yaml {
            Some(y) => Some(y),
            None => None,
        }
    }

    /// The YAML text of the manifest.
    pub fn as_raw(&self) -> (r: &String)
        ensures
            r@ == self@.raw,
    {
        &self.raw
    }

    /// The node at a path of keys in the document, if there is one.
    pub fn at(&self, keys: &[&str]) -> (r: Option<&YamlValue>)
        ensures
            match r {
                Some(x) => doc_at(self@, key_views(keys@)) == Some(x@),
                None => doc_at(self@, key_views(keys@)) is None,
            },
    {
        match &self.yaml {
            Some(y) => y.at(keys),
            None => None,
        }
    }

    /// The items of `status.conditions`.
    fn condition_list(&self) -> (r: Option<&Vec<YamlValue>>)
        ensures
            match r {
                Some(v) => items_view(v@) == condition_nodes(self@),
                None => condition_nodes(self@) == Seq::<YamlView>::empty(),
            },
    {
        let keys: [&str; 2] = ["status", "conditions"];
        assert(key_views(keys@) =~= seq!["status"@, "conditions"@]);
        match self.at(&keys) {
            Some(c) => c.as_vec(),
            None => None,
        }
    }

    /// Return true if the manifest has the condition type.
    pub fn has_condition(&self, condition: &str) -> (r: bool)
        ensures
            r == manifest_has_condition(self@, condition@),
    {
        match self.condition_list() {
            Some(conds) => {
                let mut i: usize = 0;
                while i < conds.len()
                    invariant
                        i <= conds.len(),
                        items_view(conds@) == condition_nodes(self@),
                        forall|j: int|
                            0 <= j < i ==> !condition_type_is(condition_nodes(self@)[j], condition@),
                    decreases conds.len() - i,
                {
                    let t = str_node_or_empty(conds[i].get("type"));
                    assert(condition_nodes(self@)[i as int] == conds@[i as int]@);
                    if str_eq(t.as_str(), condition) {
                        return true;
                    }
                    i = i + 1;
                }
                false
            },
            None => false,
        }
    }

    /// Return true if the manifest has the condition type with the
    /// specified status.
    pub fn has_condition_status(&self, condition: &str, status: &str) -> (r: bool)
        ensures
            r == manifest_has_condition_status(self@, condition@, status@),
    {
        match self.condition_list() {
            Some(conds) => {
                let mut i: usize = 0;
                while i < conds.len()
                    invariant
                        i <= conds.len(),
                        items_view(conds@) == condition_nodes(self@),
                        forall|j: int|
                            0 <= j < i ==> !condition_status_is(
                                condition_nodes(self@)[j],
                                condition@,
                                status@,
                            ),
                    decreases conds.len() - i,
                {
                    let t = str_node(conds[i].get("type"));
                    let s = str_node(conds[i].get("status"));
                    assert(condition_nodes(self@)[i as int] == conds@[i as int]@);
                    let type_matches = match &t {
                        Some(t) => str_eq(t.as_str(), condition),
                        None => false,
                    };
                    let status_matches = match &s {
                        Some(s) => str_eq(s.as_str(), status),
                        None => false,
                    };
                    if type_matches && status_matches {
                        return true;
                    }
                    i = i + 1;
                }
                false
            },
            None => false,
        }
    }

    /// A string field of the metadata.
    fn metadata_string(&self, key: &str) -> (r: Option<String>)
        ensures
            r.deep_view() == metadata_str(self@, key@),
    {
        let keys: [&str; 2] = ["metadata", key];
        assert(key_views(keys@) =~= seq!["metadata"@, key@]);
        str_node(self.at(&keys))
    }

    /// Extract UID from metadata
    pub fn uid(&self) -> (r: Option<String>)
        ensures
            r.deep_view() == metadata_str(self@, "uid"@),
    {
        self.metadata_string("uid")
    }

    /// Extract namespace from metadata
    pub fn namespace(&self) -> (r: Option<String>)
        ensures
            r.deep_view() == metadata_str(self@, "namespace"@),
    {
        self.metadata_string("namespace")
    }

    /// Extract creation timestamp from metadata
    pub fn creation_timestamp(&self) -> (r: Option<String>)
        ensures
            r.deep_view() == metadata_str(self@, "creationTimestamp"@),
    {
        self.metadata_string("creationTimestamp")
    }

    /// The string entries of a mapping under the metadata.
    fn metadata_map(&self, key: &str) -> (r: Vec<(String, String)>)
        ensures
            r.deep_view() == metadata_pairs(self@, key@),
    {
        let keys: [&str; 2] = ["metadata", key];
        assert(key_views(keys@) =~= seq!["metadata"@, key@]);
        let mut out: Vec<(String, String)> = Vec::new();
        match self.at(&keys) {
            Some(node) => match node.as_hash() {
                Some(entries) => {
                    let ghost ev = entries_view(entries@);
                    let mut i: usize = 0;
                    assert(ev.take(0) =~= Seq::<(YamlView, YamlView)>::empty());
                    while i < entries.len()
                        invariant
                            i <= entries.len(),
                            ev == entries_view(entries@),
                            out.deep_view() == string_pairs(ev.take(i as int)),
                        decreases entries.len() - i,
                    {
                        assert(ev.take(i + 1).drop_last() =~= ev.take(i as int));
                        assert(ev[i as int] == (entries@[i as int].0@, entries@[i as int].1@));
                        let ghost before = out.deep_view();
                        match (&entries[i].0, &entries[i].1) {
                            (YamlValue::String(k), YamlValue::String(v)) => {
                                out.push((copy_string(k), copy_string(v)));
                                assert(out.deep_view() =~= before.push((k@, v@)));
                            },
                            _ => {},
                        }
                        i = i + 1;
                    }
                    assert(ev.take(entries.len() as int) =~= ev);
                },
                None => {},
            },
            None => {},
        }
        out
    }

    /// Extract labels from metadata, in the order of the document.
    pub fn labels(&self) -> (r: Vec<(String, String)>)
        ensures
            r.deep_view() == metadata_pairs(self@, "labels"@),
    {
        self.metadata_map("labels")
    }

    /// Extract annotations from metadata, in the order of the document.
    pub fn annotations(&self) -> (r: Vec<(String, String)>)
        ensures
            r.deep_view() == metadata_pairs(self@, "annotations"@),
    {
        self.metadata_map("annotations")
    }

    /// Extract owner references from metadata
    pub fn owner_references(&self) -> (r: Vec<(String, String, Option<String>, Option<bool>)>)
        ensures
            r.deep_view() == manifest_owner_references(self@),
    {
        let keys: [&str; 2] = ["metadata", "ownerReferences"];
        assert(key_views(keys@) =~= seq!["metadata"@, "ownerReferences"@]);
        let mut out: Vec<(String, String, Option<String>, Option<bool>)> = Vec::new();
        match self.at(&keys) {
            Some(node) => match node.as_vec() {
                Some(items) => {
                    let ghost iv = items_view(items@);
                    let mut i: usize = 0;
                    assert(iv.take(0) =~= Seq::<YamlView>::empty());
                    while i < items.len()
                        invariant
                            i <= items.len(),
                            iv == items_view(items@),
                            out.deep_view() == owner_references_of(iv.take(i as int)),
                        decreases items.len() - i,
                    {
                        assert(iv.take(i + 1).drop_last() =~= iv.take(i as int));
                        assert(iv[i as int] == items@[i as int]@);
                        let e = &items[i];
                        let kind = str_node_or_empty(e.get("kind"));
                        let name = str_node_or_empty(e.get("name"));
                        let uid = str_node(e.get("uid"));
                        let controller = match e.get("controller") {
                            Some(c) => c.as_bool(),
                            None => None,
                        };
                        let ghost before = out.deep_view();
                        if kind.unicode_len() > 0 && name.unicode_len() > 0 {
                            let ghost t = (kind@, name@, uid.deep_view(), controller);
                            out.push((kind, name, uid, controller));
                            assert(out.deep_view() =~= before.push(t));
                        }
                        i = i + 1;
                    }
                    assert(iv.take(items.len() as int) =~= iv);
                },
                None => {},
            },
            None => {},
        }
        out
    }

    /// Extract all conditions from status
    pub fn conditions(&self) -> (r: Vec<(String, String, Option<String>, Option<String>)>)
        ensures
            r.deep_view() == manifest_conditions(self@),
    {
        let mut out: Vec<(String, String, Option<String>, Option<String>)> = Vec::new();
        match self.condition_list() {
            Some(conds) => {
                let ghost cv = items_view(conds@);
                let mut i: usize = 0;
                while i < conds.len()
                    invariant
                        i <= conds.len(),
                        cv == items_view(conds@),
                        cv == condition_nodes(self@),
                        out.deep_view() =~= cv.take(i as int).map_values(
                            |c: YamlView| condition_of(c),
                        ),
                    decreases conds.len() - i,
                {
                    assert(cv[i as int] == conds@[i as int]@);
                    let c = &conds[i];
                    let t = str_node_or_empty(c.get("type"));
                    let s = str_node_or_empty(c.get("status"));
                    let reason = str_node(c.get("reason"));
                    let message = str_node(c.get("message"));
                    let ghost before = out.deep_view();
                    let ghost tv = (t@, s@, reason.deep_view(), message.deep_view());
                    out.push((t, s, reason, message));
                    assert(out.deep_view() =~= before.push(tv));
                    assert(cv.take(i + 1).map_values(|c: YamlView| condition_of(c)) =~= cv.take(
                        i as int,
                    ).map_values(|c: YamlView| condition_of(c)).push(condition_of(cv[i as int])));
                    i = i + 1;
                }
                assert(cv.take(conds.len() as int) =~= cv);
            },
            None => {},
        }
        out
    }
}

} // verus!
