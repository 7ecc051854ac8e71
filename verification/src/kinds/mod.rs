//! The resource kinds of a must-gather, each read from its manifest: what
//! it extracts, how healthy it is, and the snapshot it yields.
pub mod apps;
pub mod cluster;
pub mod event;
pub mod storage;
pub mod generic;
pub mod machine;
pub mod networking;
pub mod node;
pub mod pod;
pub mod rbac;
pub mod workload;

use crate::manifest::{
    doc_at, manifest_conditions, manifest_owner_references, metadata_pairs, metadata_str,
    Manifest, ManifestView,
};
use crate::resources::join3;
use crate::text::{decimal, i64_to_text};
use crate::yaml::{bool_of, i64_of, items_view, key_views, str_of, vec_of, YamlValue, YamlView};
use crate::resources::{
    copy_opt_string, copy_string, or_text, Condition, ConditionView, HealthStatus, OwnerReference,
    OwnerReferenceView, ResourceLinkView, ContainerView, ResourceMetadata, ResourceMetadataView, ResourceSnapshot, SnapshotView,
};
use vstd::prelude::*;

verus! {

/// The manifest's conditions as resource conditions (no transition time).
pub open spec fn condition_views(m: ManifestView) -> Seq<ConditionView> {
    manifest_conditions(m).map_values(
        |c: (Seq<char>, Seq<char>, Option<Seq<char>>, Option<Seq<char>>)|
            ConditionView {
                type_: c.0,
                status: c.1,
                reason: c.2,
                message: c.3,
                last_transition: None,
            },
    )
}

/// The manifest's owner references.
pub open spec fn owner_reference_views(m: ManifestView) -> Seq<OwnerReferenceView> {
    manifest_owner_references(m).map_values(
        |o: (Seq<char>, Seq<char>, Option<Seq<char>>, Option<bool>)|
            OwnerReferenceView { kind: o.0, name: o.1, uid: o.2, controller: o.3 },
    )
}

/// The metadata of a resource read from its manifest; `uid_fallback` is
/// the uid when the manifest has none.
pub open spec fn metadata_view(
    m: ManifestView,
    namespace: Option<Seq<char>>,
    uid_fallback: Seq<char>,
) -> ResourceMetadataView {
    ResourceMetadataView {
        uid: or_text(metadata_str(m, "uid"@), uid_fallback),
        namespace,
        labels: metadata_pairs(m, "labels"@),
        annotations: metadata_pairs(m, "annotations"@),
        creation_timestamp: metadata_str(m, "creationTimestamp"@),
    }
}

/// What every kind yields before its own parts: name, kind, namespace,
/// text and metadata, nothing else (health Unknown).
pub open spec fn base_view(m: ManifestView, kind: Seq<char>, namespace: Option<Seq<char>>) -> SnapshotView {
    SnapshotView {
        name: m.name,
        kind,
        namespace,
        uid: m.name,
        raw: m.raw,
        health_status: HealthStatus::Unknown,
        conditions: Seq::empty(),
        warnings: Seq::empty(),
        errors: Seq::empty(),
        metadata: metadata_view(m, namespace, m.name),
        relationships: Seq::empty(),
        summary: None,
        key_fields: Seq::empty(),
        owner_references: Seq::empty(),
        logs: Seq::empty(),
    }
}

/// The manifest's conditions as resource conditions.
pub fn conditions_of(m: &Manifest) -> (r: Vec<Condition>)
    ensures
        r.deep_view() == condition_views(m@),
{
    let mut raw = m.conditions();
    let ghost all = raw.deep_view();
    let mut out: Vec<Condition> = Vec::new();
    let ghost mut k: int = 0;
    assert(all.skip(0) =~= all);
    while raw.len() > 0
        invariant
            0 <= k <= all.len(),
            raw.deep_view() == all.skip(k),
            all == manifest_conditions(m@),
            out.deep_view() =~= condition_views(m@).take(k),
        decreases raw.len(),
    {
        assert(raw.deep_view()[0] == all[k]);
        let ghost before_raw = raw@;
        let (type_, status, reason, message) = raw.remove(0);
        assert(raw@ =~= before_raw.drop_first());
        assert forall|j: int| 0 <= j < raw.deep_view().len() implies #[trigger] raw.deep_view()[j]
            == all.skip(k + 1)[j] by {
            assert(raw@[j] == before_raw[j + 1]);
            assert(all.skip(k)[j + 1] == before_raw[j + 1].deep_view());
        }
        assert(raw.deep_view() =~= all.skip(k + 1));
        let c = Condition { type_, status, reason, message, last_transition: None };
        let ghost before = out.deep_view();
        let ghost cv = c@;
        out.push(c);
        assert(out.deep_view() =~= before.push(cv));
        proof {
            k = k + 1;
        }
    }
    assert(condition_views(m@).take(k) =~= condition_views(m@));
    out
}

/// The manifest's owner references.
pub fn owner_references_of(m: &Manifest) -> (r: Vec<OwnerReference>)
    ensures
        r.deep_view() == owner_reference_views(m@),
{
    let mut raw = m.owner_references();
    let ghost all = raw.deep_view();
    let mut out: Vec<OwnerReference> = Vec::new();
    let ghost mut k: int = 0;
    assert(all.skip(0) =~= all);
    while raw.len() > 0
        invariant
            0 <= k <= all.len(),
            raw.deep_view() == all.skip(k),
            all == manifest_owner_references(m@),
            out.deep_view() =~= owner_reference_views(m@).take(k),
        decreases raw.len(),
    {
        assert(raw.deep_view()[0] == all[k]);
        let ghost before_raw = raw@;
        let (kind, name, uid, controller) = raw.remove(0);
        assert(raw@ =~= before_raw.drop_first());
        assert forall|j: int| 0 <= j < raw.deep_view().len() implies #[trigger] raw.deep_view()[j]
            == all.skip(k + 1)[j] by {
            assert(raw@[j] == before_raw[j + 1]);
            assert(all.skip(k)[j + 1] == before_raw[j + 1].deep_view());
        }
        assert(raw.deep_view() =~= all.skip(k + 1));
        let o = OwnerReference { kind, name, uid, controller };
        let ghost before = out.deep_view();
        let ghost ov = o@;
        out.push(o);
        assert(out.deep_view() =~= before.push(ov));
        proof {
            k = k + 1;
        }
    }
    assert(owner_reference_views(m@).take(k) =~= owner_reference_views(m@));
    out
}

/// The metadata of a resource read from its manifest.
pub fn metadata_of(m: &Manifest, namespace: &Option<String>, uid_fallback: &String) -> (r:
    ResourceMetadata)
    ensures
        r@ == metadata_view(m@, namespace.deep_view(), uid_fallback@),
{
    ResourceMetadata {
        uid: match m.uid() {
            Some(u) => u,
            None => copy_string(uid_fallback),
        },
        namespace: copy_opt_string(namespace),
        labels: m.labels(),
        annotations: m.annotations(),
        creation_timestamp: m.creation_timestamp(),
    }
}

/// What every kind yields before its own parts.
pub fn base_snapshot(m: &Manifest, kind: &str, namespace: &Option<String>) -> (r: ResourceSnapshot)
    ensures
        r@ == base_view(m@, kind@, namespace.deep_view()),
{
    let r = ResourceSnapshot {
        name: copy_string(&m.name),
        kind: String::from_str(kind),
        namespace: copy_opt_string(namespace),
        uid: copy_string(&m.name),
        raw: copy_string(&m.raw),
        health_status: HealthStatus::Unknown,
        conditions: Vec::new(),
        warnings: Vec::new(),
        errors: Vec::new(),
        metadata: metadata_of(m, namespace, &m.name),
        relationships: Vec::new(),
        summary: None,
        key_fields: Vec::new(),
        owner_references: Vec::new(),
        logs: Vec::new(),
    };
    assert(r.conditions.deep_view() =~= Seq::<ConditionView>::empty());
    assert(r.warnings.deep_view() =~= Seq::<Seq<char>>::empty());
    assert(r.errors.deep_view() =~= Seq::<Seq<char>>::empty());
    assert(r.relationships.deep_view() =~= Seq::<ResourceLinkView>::empty());
    assert(r.key_fields.deep_view() =~= Seq::<(Seq<char>, Seq<char>)>::empty());
    assert(r.owner_references.deep_view() =~= Seq::<OwnerReferenceView>::empty());
    assert(r.logs.deep_view() =~= Seq::<ContainerView>::empty());
    r
}

/// The integer at `a.b` in the manifest's document, or `d`.
pub open spec fn int_or(m: ManifestView, a: Seq<char>, b: Seq<char>, d: i64) -> i64 {
    match i64_of(doc_at(m, seq![a, b])) {
        Some(i) => i,
        None => d,
    }
}

/// The integer at `a.b` in the manifest's document, or `d`.
pub fn int_field(m: &Manifest, a: &str, b: &str, d: i64) -> (r: i64)
    ensures
        r == int_or(m@, a@, b@, d),
{
    let keys: [&str; 2] = [a, b];
    assert(key_views(keys@) =~= seq![a@, b@]);
    match m.at(&keys) {
        Some(n) => match n.as_i64() {
            Some(i) => i,
            None => d,
        },
        None => d,
    }
}

/// `prefix` x `/` y `suffix`, the numbers in decimal.
pub open spec fn ratio_text(prefix: Seq<char>, x: i64, y: i64, suffix: Seq<char>) -> Seq<char> {
    prefix + decimal(x as int) + "/"@ + decimal(y as int) + suffix
}

/// `prefix` x `/` y `suffix`, the numbers in decimal.
pub fn ratio(prefix: &str, x: i64, y: i64, suffix: &str) -> (r: String)
    ensures
        r@ == ratio_text(prefix@, x, y, suffix@),
{
    let xs = i64_to_text(x);
    let ys = i64_to_text(y);
    let mut r = join3(prefix, xs.as_str(), "/");
    r.append(ys.as_str());
    r.append(suffix);
    r
}

/// A number in decimal followed by `suffix`.
pub fn number_then(x: i64, suffix: &str) -> (r: String)
    ensures
        r@ == decimal(x as int) + suffix@,
{
    let mut r = i64_to_text(x);
    r.append(suffix);
    r
}

/// `[msg]` when `cond` holds, else nothing.
pub open spec fn msg_if(cond: bool, msg: Seq<char>) -> Seq<Seq<char>> {
    if cond {
        seq![msg]
    } else {
        Seq::empty()
    }
}

/// Appends a text to a list of texts.
pub fn push_text(v: &mut Vec<String>, s: String)
    ensures
        final(v).deep_view() == old(v).deep_view().push(s@),
{
    let ghost sv = s@;
    v.push(s);
    assert(v.deep_view() =~= old(v).deep_view().push(sv));
}

/// Appends a key field.
pub fn push_field(v: &mut Vec<(String, String)>, key: &str, value: String)
    ensures
        final(v).deep_view() == old(v).deep_view().push((key@, value@)),
{
    let ghost e = (key@, value@);
    v.push((String::from_str(key), value));
    assert(v.deep_view() =~= old(v).deep_view().push(e));
}

/// Two keys as a path.
pub fn keys2<'a>(a: &'a str, b: &'a str) -> (r: [&'a str; 2])
    ensures
        key_views(r@) == seq![a@, b@],
{
    let r = [a, b];
    assert(key_views(r@) =~= seq![a@, b@]);
    r
}

/// One key as a path.
pub fn keys1<'a>(a: &'a str) -> (r: [&'a str; 1])
    ensures
        key_views(r@) == seq![a@],
{
    let r = [a];
    assert(key_views(r@) =~= seq![a@]);
    r
}

/// Three keys as a path.
pub fn keys3<'a>(a: &'a str, b: &'a str, c: &'a str) -> (r: [&'a str; 3])
    ensures
        key_views(r@) == seq![a@, b@, c@],
{
    let r = [a, b, c];
    assert(key_views(r@) =~= seq![a@, b@, c@]);
    r
}

/// The string at a path of the manifest's document.
pub open spec fn text_of(m: ManifestView, keys: Seq<Seq<char>>) -> Option<Seq<char>> {
    str_of(doc_at(m, keys))
}

/// The string at a path of the manifest's document.
pub fn text_at(m: &Manifest, keys: &[&str]) -> (r: Option<String>)
    ensures
        r.deep_view() == text_of(m@, key_views(keys@)),
{
    match m.at(keys) {
        Some(n) => match n.as_str() {
            Some(s) => Some(String::from_str(s)),
            None => None,
        },
        None => None,
    }
}

/// The string at a path of the manifest's document, or `d`.
pub fn text_at_or(m: &Manifest, keys: &[&str], d: &str) -> (r: String)
    ensures
        r@ == or_text(text_of(m@, key_views(keys@)), d@),
{
    match text_at(m, keys) {
        Some(s) => s,
        None => String::from_str(d),
    }
}

/// The boolean at a path of the manifest's document, or `false`.
pub open spec fn flag_of(m: ManifestView, keys: Seq<Seq<char>>) -> bool {
    match bool_of(doc_at(m, keys)) {
        Some(b) => b,
        None => false,
    }
}

/// The boolean at a path of the manifest's document, or `false`.
pub fn flag_at(m: &Manifest, keys: &[&str]) -> (r: bool)
    ensures
        r == flag_of(m@, key_views(keys@)),
{
    match m.at(keys) {
        Some(n) => match n.as_bool() {
            Some(b) => b,
            None => false,
        },
        None => false,
    }
}

/// The string items of a list, in order.
pub open spec fn strings_of(items: Seq<YamlView>) -> Seq<Seq<char>>
    decreases items.len(),
{
    if items.len() == 0 {
        Seq::empty()
    } else {
        let init = strings_of(items.drop_last());
        match items.last() {
            YamlView::String(s) => init.push(s),
            _ => init,
        }
    }
}

/// The string items of the list at a path, or none.
pub open spec fn list_of(m: ManifestView, keys: Seq<Seq<char>>) -> Seq<Seq<char>> {
    match vec_of(doc_at(m, keys)) {
        Some(v) => strings_of(v),
        None => Seq::empty(),
    }
}

/// The string items of the list at a path.
pub fn list_at(m: &Manifest, keys: &[&str]) -> (r: Vec<String>)
    ensures
        r.deep_view() == list_of(m@, key_views(keys@)),
{
    let mut out: Vec<String> = Vec::new();
    match m.at(keys) {
        Some(n) => match n.as_vec() {
            Some(items) => {
                let ghost iv = items_view(items@);
                let mut i: usize = 0;
                assert(iv.take(0) =~= Seq::<YamlView>::empty());
                while i < items.len()
                    invariant
                        i <= items.len(),
                        iv == items_view(items@),
                        out.deep_view() == strings_of(iv.take(i as int)),
                    decreases items.len() - i,
                {
                    assert(iv.take(i + 1).drop_last() =~= iv.take(i as int));
                    assert(iv[i as int] == items@[i as int]@);
                    let ghost before = out.deep_view();
                    match &items[i] {
                        YamlValue::String(s) => {
                            out.push(copy_string(s));
                            assert(out.deep_view() =~= before.push(s@));
                        },
                        _ => {},
                    }
                    i = i + 1;
                }
                assert(iv.take(items.len() as int) =~= iv);
            },
            None => {},
        },
        None => {},
    }
    out
}

/// An optional key field.
pub open spec fn field_if(key: Seq<char>, v: Option<Seq<char>>) -> Seq<(Seq<char>, Seq<char>)> {
    match v {
        Some(x) => seq![(key, x)],
        None => Seq::empty(),
    }
}

/// Appends a key field when there is a value.
pub fn push_field_if(v: &mut Vec<(String, String)>, key: &str, value: &Option<String>)
    ensures
        final(v).deep_view() == old(v).deep_view() + field_if(key@, value.deep_view()),
{
    match value {
        Some(x) => push_field(v, key, copy_string(x)),
        None => {
            assert(old(v).deep_view() + Seq::<(Seq<char>, Seq<char>)>::empty() =~= old(
                v,
            ).deep_view());
        },
    }
}

/// No names.
pub fn no_names() -> (r: Vec<String>)
    ensures
        r.deep_view() == Seq::<Seq<char>>::empty(),
{
    let r: Vec<String> = Vec::new();
    assert(r.deep_view() =~= Seq::<Seq<char>>::empty());
    r
}

/// The first name when `a` holds, then the second when `b` holds.
pub fn two_names(a: bool, first: &str, b: bool, second: &str) -> (r: Vec<String>)
    ensures
        r.deep_view() == msg_if(a, first@) + msg_if(b, second@),
{
    let mut r: Vec<String> = Vec::new();
    if a {
        push_text(&mut r, String::from_str(first));
    }
    if b {
        push_text(&mut r, String::from_str(second));
    }
    assert(r.deep_view() =~= msg_if(a, first@) + msg_if(b, second@));
    r
}

} // verus!
