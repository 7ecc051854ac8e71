//! A plain model of a parsed YAML document and the lookups the resource
//! readers make in it. Parsing and printing are done by `yaml_rust`; a
//! parsed document is carried over, node for node, into `YamlValue`.
use crate::resources::str_eq;
use vstd::prelude::*;
use yaml_rust::{Yaml, YamlEmitter, YamlLoader};

verus! {

/// A YAML node as `yaml_rust` represents it: a mapping keeps its entries in
/// insertion order, and no two entries have the same key.
#[derive(Debug)]
pub enum YamlValue {
    Real(String),
    Integer(i64),
    String(String),
    Boolean(bool),
    Array(Vec<YamlValue>),
    Hash(Vec<(YamlValue, YamlValue)>),
    Alias(usize),
    Null,
    BadValue,
}

#[verifier::external_type_specification]
#[verifier::external_body]
pub struct ExYaml(Yaml);

/// The value of a YAML node: strings as their characters, sequences and
/// mappings as sequences of values.
pub enum YamlView {
    Real(Seq<char>),
    Integer(i64),
    String(Seq<char>),
    Boolean(bool),
    Array(Seq<YamlView>),
    Hash(Seq<(YamlView, YamlView)>),
    Alias(usize),
    Null,
    BadValue,
}

/// The value of a node.
pub open spec fn view_of(v: YamlValue) -> YamlView
    decreases v,
{
    match v {
        YamlValue::Real(s) => YamlView::Real(s@),
        YamlValue::Integer(i) => YamlView::Integer(i),
        YamlValue::String(s) => YamlView::String(s@),
        YamlValue::Boolean(b) => YamlView::Boolean(b),
        YamlValue::Array(a) => YamlView::Array(
            Seq::new(a@.len(), |i: int| if 0 <= i < a@.len() { view_of(a@[i]) } else { YamlView::Null }),
        ),
        YamlValue::Hash(h) => YamlView::Hash(
            Seq::new(
                h@.len(),
                |i: int|
                    if 0 <= i < h@.len() {
                        (view_of(h@[i].0), view_of(h@[i].1))
                    } else {
                        (YamlView::Null, YamlView::Null)
                    },
            ),
        ),
        YamlValue::Alias(n) => YamlView::Alias(n),
        YamlValue::Null => YamlView::Null,
        YamlValue::BadValue => YamlView::BadValue,
    }
}

impl View for YamlValue {
    type V = YamlView;

    open spec fn view(&self) -> YamlView {
        view_of(*self)
    }
}

/// The values of a list of nodes.
pub open spec fn items_view(items: Seq<YamlValue>) -> Seq<YamlView> {
    Seq::new(items.len(), |i: int| items[i]@)
}

/// The values of a list of mapping entries.
pub open spec fn entries_view(entries: Seq<(YamlValue, YamlValue)>) -> Seq<(YamlView, YamlView)> {
    Seq::new(entries.len(), |i: int| (entries[i].0@, entries[i].1@))
}

/// A sequence node's value is the values of its items.
pub proof fn lemma_array_view(a: Vec<YamlValue>)
    ensures
        YamlValue::Array(a)@ == YamlView::Array(items_view(a@)),
{
    let v = YamlValue::Array(a);
    let s = view_of(v)->Array_0;
    assert(s =~= items_view(a@));
}

/// A mapping node's value is the values of its entries.
pub proof fn lemma_hash_view(h: Vec<(YamlValue, YamlValue)>)
    ensures
        YamlValue::Hash(h)@ == YamlView::Hash(entries_view(h@)),
{
    let v = YamlValue::Hash(h);
    let s = view_of(v)->Hash_0;
    assert(s =~= entries_view(h@));
}

/// What `YamlLoader::load_from_str` gives for a text: the documents, or
/// the message of the scan error.
pub uninterp spec fn yaml_documents(text: Seq<char>) -> Result<Seq<YamlView>, Seq<char>>;

/// What `YamlEmitter::dump` writes for a document, or `None` when it
/// reports an error.
pub uninterp spec fn yaml_dumped(doc: YamlView) -> Option<Seq<char>>;

/// Carries a `yaml_rust` node over into the library's model, variant for
/// variant.
#[verifier::external_body]
fn from_outside(y: Yaml) -> YamlValue {
    match y {
        Yaml::Real(s) => YamlValue::Real(s),
        Yaml::Integer(i) => YamlValue::Integer(i),
        Yaml::String(s) => YamlValue::String(s),
        Yaml::Boolean(b) => YamlValue::Boolean(b),
        Yaml::Array(v) => YamlValue::Array(v.into_iter().map(from_outside).collect()),
        Yaml::Hash(h) => YamlValue::Hash(
            h.into_iter().map(|(k, v)| (from_outside(k), from_outside(v))).collect(),
        ),
        Yaml::Alias(n) => YamlValue::Alias(n),
        Yaml::Null => YamlValue::Null,
        Yaml::BadValue => YamlValue::BadValue,
    }
}

/// Carries a node of the library's model back into a `yaml_rust` node.
#[verifier::external_body]
fn to_outside(v: &YamlValue) -> Yaml {
    match v {
        YamlValue::Real(s) => Yaml::Real(s.clone()),
        YamlValue::Integer(i) => Yaml::Integer(*i),
        YamlValue::String(s) => Yaml::String(s.clone()),
        YamlValue::Boolean(b) => Yaml::Boolean(*b),
        YamlValue::Array(a) => Yaml::Array(a.iter().map(to_outside).collect()),
        YamlValue::Hash(h) => Yaml::Hash(
            h.iter().map(|(k, v)| (to_outside(k), to_outside(v))).collect::<yaml_rust::yaml::Hash>(),
        ),
        YamlValue::Alias(n) => Yaml::Alias(*n),
        YamlValue::Null => Yaml::Null,
        YamlValue::BadValue => Yaml::BadValue,
    }
}

/// Parses a text into its YAML documents with `YamlLoader::load_from_str`;
/// a scan error is given back as its message.
#[verifier::external_body]
pub(crate) fn load_documents(text: &str) -> (r: Result<Vec<YamlValue>, String>)
    ensures
        match r {
            Ok(docs) => yaml_documents(text@) == Ok::<Seq<YamlView>, Seq<char>>(items_view(docs@)),
            Err(e) => yaml_documents(text@) == Err::<Seq<YamlView>, Seq<char>>(e@),
        },
{
    match YamlLoader::load_from_str(text) {
        Ok(docs) => Ok(docs.into_iter().map(from_outside).collect()),
        Err(e) => Err(format!("{}", e)),
    }
}

/// Prints a document with `YamlEmitter::dump` into a new string.
#[verifier::external_body]
pub(crate) fn dump_document(doc: &YamlValue) -> (r: Option<String>)
    ensures
        r.deep_view() == yaml_dumped(doc@),
{
    let mut out = String::new();
    let mut emitter = YamlEmitter::new(&mut out);
    match emitter.dump(&to_outside(doc)) {
        Ok(()) => Some(out),
        Err(_) => None,
    }
}

// ---------------------------------------------------------------------------
// Lookups, stated over the model
// ---------------------------------------------------------------------------
/// The value of the first entry whose key is the string `key`.
pub open spec fn entries_lookup(entries: Seq<(YamlView, YamlView)>, key: Seq<char>) -> Option<
    YamlView,
>
    decreases entries.len(),
{
    if entries.len() == 0 {
        None
    } else if entries[0].0 == YamlView::String(key) {
        Some(entries[0].1)
    } else {
        entries_lookup(entries.drop_first(), key)
    }
}

/// `node[key]`: the value under `key` when the node is a mapping that has
/// it; `None` stands for yaml_rust's `BadValue`.
pub open spec fn lookup(v: YamlView, key: Seq<char>) -> Option<YamlView> {
    match v {
        YamlView::Hash(h) => entries_lookup(h, key),
        _ => None,
    }
}

/// `node[k0][k1]...` for a node that may be missing.
pub open spec fn lookup_path(v: Option<YamlView>, keys: Seq<Seq<char>>) -> Option<YamlView>
    decreases keys.len(),
{
    if keys.len() == 0 {
        v
    } else {
        match v {
            Some(x) => lookup_path(lookup(x, keys[0]), keys.drop_first()),
            None => None,
        }
    }
}

/// `as_str` of a node that may be missing.
pub open spec fn str_of(v: Option<YamlView>) -> Option<Seq<char>> {
    match v {
        Some(YamlView::String(s)) => Some(s),
        _ => None,
    }
}

/// `as_i64` of a node that may be missing.
pub open spec fn i64_of(v: Option<YamlView>) -> Option<i64> {
    match v {
        Some(YamlView::Integer(i)) => Some(i),
        _ => None,
    }
}

/// `as_bool` of a node that may be missing.
pub open spec fn bool_of(v: Option<YamlView>) -> Option<bool> {
    match v {
        Some(YamlView::Boolean(b)) => Some(b),
        _ => None,
    }
}

/// `as_vec` of a node that may be missing.
pub open spec fn vec_of(v: Option<YamlView>) -> Option<Seq<YamlView>> {
    match v {
        Some(YamlView::Array(a)) => Some(a),
        _ => None,
    }
}

/// `as_hash` of a node that may be missing.
pub open spec fn hash_of(v: Option<YamlView>) -> Option<Seq<(YamlView, YamlView)>> {
    match v {
        Some(YamlView::Hash(h)) => Some(h),
        _ => None,
    }
}

/// The views of a list of keys.
pub open spec fn key_views(keys: Seq<&str>) -> Seq<Seq<char>> {
    keys.map_values(|k: &str| k@)
}

/// A node is the string `key`.
pub fn key_matches(k: &YamlValue, key: &str) -> (r: bool)
    ensures
        r == (k@ == YamlView::String(key@)),
{
    match k {
        YamlValue::String(s) => str_eq(s.as_str(), key),
        _ => false,
    }
}

/// The position of the first entry whose key is the string `key`.
pub open spec fn key_index(entries: Seq<(YamlView, YamlView)>, key: Seq<char>) -> Option<int>
    decreases entries.len(),
{
    if entries.len() == 0 {
        None
    } else if entries[0].0 == YamlView::String(key) {
        Some(0)
    } else {
        match key_index(entries.drop_first(), key) {
            Some(i) => Some(i + 1),
            None => None,
        }
    }
}

/// The first entry with key `key` is at `key_index`, and its value is the
/// lookup's value.
pub proof fn lemma_key_index(entries: Seq<(YamlView, YamlView)>, key: Seq<char>)
    ensures
        match key_index(entries, key) {
            Some(i) => 0 <= i < entries.len() && entries[i].0 == YamlView::String(key)
                && entries_lookup(entries, key) == Some(entries[i].1)
                && forall|j: int| 0 <= j < i ==> entries[j].0 != YamlView::String(key),
            None => entries_lookup(entries, key) is None
                && forall|j: int| 0 <= j < entries.len() ==> entries[j].0 != YamlView::String(key),
        },
    decreases entries.len(),
{
    if entries.len() > 0 {
        lemma_key_index(entries.drop_first(), key);
        assert forall|j: int| 1 <= j < entries.len() implies entries[j] == entries.drop_first()[j
            - 1] by {}
    }
}

/// Where the entry with key `key` stands among mapping entries.
pub fn key_position(entries: &Vec<(YamlValue, YamlValue)>, key: &str) -> (r: Option<usize>)
    ensures
        match r {
            Some(i) => key_index(entries_view(entries@), key@) == Some(i as int),
            None => key_index(entries_view(entries@), key@) is None,
        },
{
    let ghost ev = entries_view(entries@);
    proof {
        lemma_key_index(ev, key@);
    }
    let mut i: usize = 0;
    while i < entries.len()
        invariant
            i <= entries.len(),
            ev == entries_view(entries@),
            forall|j: int| 0 <= j < i ==> ev[j].0 != YamlView::String(key@),
        decreases entries.len() - i,
    {
        if key_matches(&entries[i].0, key) {
            proof {
                match key_index(ev, key@) {
                    Some(k) => {
                        assert(k == i);
                    },
                    None => {
                        assert(ev[i as int].0 == YamlView::String(key@));
                    },
                }
            }
            return Some(i);
        }
        i = i + 1;
    }
    proof {
        match key_index(ev, key@) {
            Some(k) => {
                assert(ev[k].0 != YamlView::String(key@));
            },
            None => {},
        }
    }
    None
}

/// The value under `key` among mapping entries.
pub fn entries_get<'a>(entries: &'a Vec<(YamlValue, YamlValue)>, key: &str) -> (r: Option<
    &'a YamlValue,
>)
    ensures
        match r {
            Some(x) => entries_lookup(entries_view(entries@), key@) == Some(x@),
            None => entries_lookup(entries_view(entries@), key@) is None,
        },
{
    proof {
        lemma_key_index(entries_view(entries@), key@);
    }
    match key_position(entries, key) {
        Some(i) => Some(&entries[i].1),
        None => None,
    }
}

impl YamlValue {
    /// `self[key]`, with `None` for a missing value.
    pub fn get(&self, key: &str) -> (r: Option<&YamlValue>)
        ensures
            match r {
                Some(x) => lookup(self@, key@) == Some(x@),
                None => lookup(self@, key@) is None,
            },
    {
        match self {
            YamlValue::Hash(h) => {
                proof {
                    lemma_hash_view(*h);
                }
                entries_get(h, key)
            },
            _ => None,
        }
    }

    /// The string of a string node.
    pub fn as_str(&self) -> (r: Option<&str>)
        ensures
            match r {
                Some(s) => str_of(Some(self@)) == Some(s@),
                None => str_of(Some(self@)) is None,
            },
    {
        match self {
            YamlValue::String(s) => Some(s.as_str()),
            _ => None,
        }
    }

    /// The integer of an integer node.
    pub fn as_i64(&self) -> (r: Option<i64>)
        ensures
            r == i64_of(Some(self@)),
    {
        match self {
            YamlValue::Integer(i) => Some(*i),
            _ => None,
        }
    }

    /// The boolean of a boolean node.
    pub fn as_bool(&self) -> (r: Option<bool>)
        ensures
            r == bool_of(Some(self@)),
    {
        match self {
            YamlValue::Boolean(b) => Some(*b),
            _ => None,
        }
    }

    /// The items of a sequence node.
    pub fn as_vec(&self) -> (r: Option<&Vec<YamlValue>>)
        ensures
            match r {
                Some(v) => vec_of(Some(self@)) == Some(items_view(v@)),
                None => vec_of(Some(self@)) is None,
            },
    {
        match self {
            YamlValue::Array(a) => {
                proof {
                    lemma_array_view(*a);
                }
                Some(a)
            },
            _ => None,
        }
    }

    /// The entries of a mapping node.
    pub fn as_hash(&self) -> (r: Option<&Vec<(YamlValue, YamlValue)>>)
        ensures
            match r {
                Some(h) => hash_of(Some(self@)) == Some(entries_view(h@)),
                None => hash_of(Some(self@)) is None,
            },
    {
        match self {
            YamlValue::Hash(h) => {
                proof {
                    lemma_hash_view(*h);
                }
                Some(h)
            },
            _ => None,
        }
    }

    /// `self[k0][k1]...`, with `None` for a missing value.
    pub fn at(&self, keys: &[&str]) -> (r: Option<&YamlValue>)
        ensures
            match r {
                Some(x) => lookup_path(Some(self@), key_views(keys@)) == Some(x@),
                None => lookup_path(Some(self@), key_views(keys@)) is None,
            },
    {
        let mut cur: Option<&YamlValue> = Some(self);
        let mut i: usize = 0;
        assert(key_views(keys@).skip(0) =~= key_views(keys@));
        while i < keys.len()
            invariant
                i <= keys.len(),
                lookup_path(Some(self@), key_views(keys@)) == lookup_path(
                    match cur {
                        Some(x) => Some(x@),
                        None => None,
                    },
                    key_views(keys@).skip(i as int),
                ),
            decreases keys.len() - i,
        {
            let ghost rest = key_views(keys@).skip(i as int);
            assert(rest.drop_first() =~= key_views(keys@).skip(i + 1));
            assert(rest[0] == keys@[i as int]@);
            cur = match cur {
                Some(x) => x.get(keys[i]),
                None => None,
            };
            i = i + 1;
        }
        assert(key_views(keys@).skip(keys.len() as int) =~= Seq::<Seq<char>>::empty());
        cur
    }
}

} // verus!
