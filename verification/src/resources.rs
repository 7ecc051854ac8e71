//! The shared resource model: health status, conditions, metadata, links
//! to related resources, and the snapshot of a resource that the analyzers
//! and the report read.
use crate::text::{
    chars_of, parse_bool, parse_bool_spec, parse_i64, parse_i64_spec, parse_usize, parse_usize_spec,
};
use vstd::prelude::*;

verus! {

/// Health status of a resource
#[derive(Debug, Clone, Copy, PartialEq, Eq, Structural)]
pub enum HealthStatus {
    Healthy,
    Warning,
    Error,
    Unknown,
}

/// A condition from a resource's status
#[derive(Debug, Clone)]
pub struct Condition {
    pub type_: String,
    pub status: String,
    pub reason: Option<String>,
    pub message: Option<String>,
    pub last_transition: Option<String>,
}

pub struct ConditionView {
    pub type_: Seq<char>,
    pub status: Seq<char>,
    pub reason: Option<Seq<char>>,
    pub message: Option<Seq<char>>,
    pub last_transition: Option<Seq<char>>,
}

impl View for Condition {
    type V = ConditionView;

    open spec fn view(&self) -> ConditionView {
        ConditionView {
            type_: self.type_@,
            status: self.status@,
            reason: self.reason.deep_view(),
            message: self.message.deep_view(),
            last_transition: self.last_transition.deep_view(),
        }
    }
}

impl DeepView for Condition {
    type V = ConditionView;

    open spec fn deep_view(&self) -> ConditionView {
        self@
    }
}

/// Metadata extracted from a resource
#[derive(Debug, Clone)]
pub struct ResourceMetadata {
    pub uid: String,
    pub namespace: Option<String>,
    pub labels: Vec<(String, String)>,
    pub annotations: Vec<(String, String)>,
    pub creation_timestamp: Option<String>,
}

pub struct ResourceMetadataView {
    pub uid: Seq<char>,
    pub namespace: Option<Seq<char>>,
    pub labels: Seq<(Seq<char>, Seq<char>)>,
    pub annotations: Seq<(Seq<char>, Seq<char>)>,
    pub creation_timestamp: Option<Seq<char>>,
}

impl View for ResourceMetadata {
    type V = ResourceMetadataView;

    open spec fn view(&self) -> ResourceMetadataView {
        ResourceMetadataView {
            uid: self.uid@,
            namespace: self.namespace.deep_view(),
            labels: self.labels.deep_view(),
            annotations: self.annotations.deep_view(),
            creation_timestamp: self.creation_timestamp.deep_view(),
        }
    }
}

/// Type of relationship between resources
#[derive(Debug, Clone, Copy, PartialEq, Eq, Structural)]
pub enum RelationshipType {
    Owns,
    OwnedBy,
    References,
    ReferencedBy,
    Controls,
    ControlledBy,
}

/// A link to a related resource
#[derive(Debug, Clone)]
pub struct ResourceLink {
    pub kind: String,
    pub name: String,
    pub namespace: Option<String>,
    pub relationship: RelationshipType,
}

pub struct ResourceLinkView {
    pub kind: Seq<char>,
    pub name: Seq<char>,
    pub namespace: Option<Seq<char>>,
    pub relationship: RelationshipType,
}

impl View for ResourceLink {
    type V = ResourceLinkView;

    open spec fn view(&self) -> ResourceLinkView {
        ResourceLinkView {
            kind: self.kind@,
            name: self.name@,
            namespace: self.namespace.deep_view(),
            relationship: self.relationship,
        }
    }
}

impl DeepView for ResourceLink {
    type V = ResourceLinkView;

    open spec fn deep_view(&self) -> ResourceLinkView {
        self@
    }
}

/// An owner reference: kind, name, uid and controller flag.
#[derive(Debug, Clone)]
pub struct OwnerReference {
    pub kind: String,
    pub name: String,
    pub uid: Option<String>,
    pub controller: Option<bool>,
}

pub struct OwnerReferenceView {
    pub kind: Seq<char>,
    pub name: Seq<char>,
    pub uid: Option<Seq<char>>,
    pub controller: Option<bool>,
}

impl View for OwnerReference {
    type V = OwnerReferenceView;

    open spec fn view(&self) -> OwnerReferenceView {
        OwnerReferenceView {
            kind: self.kind@,
            name: self.name@,
            uid: self.uid.deep_view(),
            controller: self.controller,
        }
    }
}

impl DeepView for OwnerReference {
    type V = OwnerReferenceView;

    open spec fn deep_view(&self) -> OwnerReferenceView {
        self@
    }
}

/// Holds the name and raw log files of a container within a pod.
#[derive(Debug, Clone)]
pub struct Container {
    pub name: String,
    pub current_log: String,
    pub current_log_path: Option<String>,
}

pub struct ContainerView {
    pub name: Seq<char>,
    pub current_log: Seq<char>,
    pub current_log_path: Option<Seq<char>>,
}

impl View for Container {
    type V = ContainerView;

    open spec fn view(&self) -> ContainerView {
        ContainerView {
            name: self.name@,
            current_log: self.current_log@,
            current_log_path: self.current_log_path.deep_view(),
        }
    }
}

impl DeepView for Container {
    type V = ContainerView;

    open spec fn deep_view(&self) -> ContainerView {
        self@
    }
}

/// Everything the analyzers and the report read of one resource, as
/// values: its identity, health, conditions, messages, metadata, links,
/// key fields, owners and logs.
#[derive(Debug, Clone)]
pub struct ResourceSnapshot {
    pub name: String,
    pub kind: String,
    pub namespace: Option<String>,
    pub uid: String,
    pub raw: String,
    pub health_status: HealthStatus,
    pub conditions: Vec<Condition>,
    pub warnings: Vec<String>,
    pub errors: Vec<String>,
    pub metadata: ResourceMetadata,
    pub relationships: Vec<ResourceLink>,
    pub summary: Option<String>,
    /// Key fields in insertion order; a key occurs at most once.
    pub key_fields: Vec<(String, String)>,
    pub owner_references: Vec<OwnerReference>,
    /// Containers whose current log is not blank.
    pub logs: Vec<Container>,
}

pub struct SnapshotView {
    pub name: Seq<char>,
    pub kind: Seq<char>,
    pub namespace: Option<Seq<char>>,
    pub uid: Seq<char>,
    pub raw: Seq<char>,
    pub health_status: HealthStatus,
    pub conditions: Seq<ConditionView>,
    pub warnings: Seq<Seq<char>>,
    pub errors: Seq<Seq<char>>,
    pub metadata: ResourceMetadataView,
    pub relationships: Seq<ResourceLinkView>,
    pub summary: Option<Seq<char>>,
    pub key_fields: Seq<(Seq<char>, Seq<char>)>,
    pub owner_references: Seq<OwnerReferenceView>,
    pub logs: Seq<ContainerView>,
}

impl View for ResourceSnapshot {
    type V = SnapshotView;

    open spec fn view(&self) -> SnapshotView {
        SnapshotView {
            name: self.name@,
            kind: self.kind@,
            namespace: self.namespace.deep_view(),
            uid: self.uid@,
            raw: self.raw@,
            health_status: self.health_status,
            conditions: self.conditions.deep_view(),
            warnings: self.warnings.deep_view(),
            errors: self.errors.deep_view(),
            metadata: self.metadata@,
            relationships: self.relationships.deep_view(),
            summary: self.summary.deep_view(),
            key_fields: self.key_fields.deep_view(),
            owner_references: self.owner_references.deep_view(),
            logs: self.logs.deep_view(),
        }
    }
}

impl DeepView for ResourceSnapshot {
    type V = SnapshotView;

    open spec fn deep_view(&self) -> SnapshotView {
        self@
    }
}

/// The first view of a resource: whether it is in error or in a warning
/// state, and the names of the conditions that stand out.
pub trait Resource {
    /// The resource is in error.
    spec fn failing(&self) -> bool;

    /// The resource is in a warning state.
    spec fn warned(&self) -> bool;

    /// The names of the conditions that stand out.
    spec fn flagged(&self) -> Seq<Seq<char>>;

    fn is_error(&self) -> (r: bool)
        ensures
            r == self.failing(),
    ;

    fn is_warning(&self) -> (r: bool)
        ensures
            r == self.warned(),
    ;

    fn conditions(&self) -> (r: Vec<String>)
        ensures
            r.deep_view() == self.flagged(),
    ;
}

/// A typed resource of the must-gather: it yields its snapshot.
pub trait ResourceV2 {
    /// The snapshot this resource yields.
    spec fn describe(&self) -> SnapshotView;

    fn snapshot(&self) -> (r: ResourceSnapshot)
        ensures
            r@ == self.describe(),
    ;
}

// ---------------------------------------------------------------------------
// Small string operations used throughout
// ---------------------------------------------------------------------------
/// `a == b` on string slices.
pub fn str_eq(a: &str, b: &str) -> (r: bool)
    ensures
        r == (a@ == b@),
{
    let x = chars_of(a);
    let y = chars_of(b);
    if x.len() != y.len() {
        return false;
    }
    let mut i: usize = 0;
    while i < x.len()
        invariant
            i <= x.len(),
            x.len() == y.len(),
            forall|k: int| 0 <= k < i ==> x@[k] == y@[k],
        decreases x.len() - i,
    {
        if x[i] != y[i] {
            assert(x@[i as int] != y@[i as int]);
            return false;
        }
        i = i + 1;
    }
    assert(x@ =~= y@);
    true
}

/// `a + b` as a new string.
pub fn join2(a: &str, b: &str) -> (r: String)
    ensures
        r@ == a@ + b@,
{
    let mut s = String::from_str(a);
    s.append(b);
    s
}

/// `a + b + c` as a new string.
pub fn join3(a: &str, b: &str, c: &str) -> (r: String)
    ensures
        r@ == a@ + b@ + c@,
{
    let mut s = String::from_str(a);
    s.append(b);
    s.append(c);
    s
}

/// A copy of a string.
pub fn copy_string(s: &String) -> (r: String)
    ensures
        r@ == s@,
{
    String::from_str(s.as_str())
}

/// A copy of an optional string.
pub fn copy_opt_string(s: &Option<String>) -> (r: Option<String>)
    ensures
        r.deep_view() == s.deep_view(),
{
    match s {
        Some(v) => Some(copy_string(v)),
        None => None,
    }
}

/// The text of an optional value, or the fallback.
pub open spec fn or_text(o: Option<Seq<char>>, fallback: Seq<char>) -> Seq<char> {
    match o {
        Some(v) => v,
        None => fallback,
    }
}

/// `o.as_deref().unwrap_or(fallback)`.
pub fn text_or<'a>(o: &'a Option<String>, fallback: &'a str) -> (r: &'a str)
    ensures
        r@ == or_text(o.deep_view(), fallback@),
{
    match o {
        Some(v) => v.as_str(),
        None => fallback,
    }
}

/// Value of the first entry with the given key.
pub open spec fn lookup_field(fields: Seq<(Seq<char>, Seq<char>)>, key: Seq<char>) -> Option<
    Seq<char>,
>
    decreases fields.len(),
{
    if fields.len() == 0 {
        None
    } else if fields[0].0 == key {
        Some(fields[0].1)
    } else {
        lookup_field(fields.drop_first(), key)
    }
}

/// A key field read as an `i64`, as `get(key).and_then(|s| s.parse().ok())`.
pub open spec fn field_i64(fields: Seq<(Seq<char>, Seq<char>)>, key: Seq<char>) -> Option<i64> {
    match lookup_field(fields, key) {
        Some(v) => parse_i64_spec(v),
        None => None,
    }
}

/// A key field read as a `usize`.
pub open spec fn field_usize(fields: Seq<(Seq<char>, Seq<char>)>, key: Seq<char>) -> Option<
    usize,
> {
    match lookup_field(fields, key) {
        Some(v) => parse_usize_spec(v),
        None => None,
    }
}

/// A key field read as a `bool`.
pub open spec fn field_bool(fields: Seq<(Seq<char>, Seq<char>)>, key: Seq<char>) -> Option<
    bool,
> {
    match lookup_field(fields, key) {
        Some(v) => parse_bool_spec(v),
        None => None,
    }
}

/// The value stored under `key`, if any (`HashMap::get`).
pub fn get_field<'a>(fields: &'a Vec<(String, String)>, key: &str) -> (r: Option<&'a String>)
    ensures
        r.deep_view() == lookup_field(fields.deep_view(), key@),
{
    let mut i: usize = 0;
    assert(fields.deep_view().skip(0) =~= fields.deep_view());
    while i < fields.len()
        invariant
            i <= fields.len(),
            lookup_field(fields.deep_view(), key@) == lookup_field(
                fields.deep_view().skip(i as int),
                key@,
            ),
        decreases fields.len() - i,
    {
        let ghost rest = fields.deep_view().skip(i as int);
        assert(rest.drop_first() =~= fields.deep_view().skip(i + 1));
        assert(rest[0] == fields.deep_view()[i as int]);
        if str_eq(fields[i].0.as_str(), key) {
            return Some(&fields[i].1);
        }
        i = i + 1;
    }
    None
}

/// A key field parsed as an `i64`.
pub fn get_field_i64(fields: &Vec<(String, String)>, key: &str) -> (r: Option<i64>)
    ensures
        r == field_i64(fields.deep_view(), key@),
{
    match get_field(fields, key) {
        Some(v) => parse_i64(v.as_str()),
        None => None,
    }
}

/// A key field parsed as a `usize`.
pub fn get_field_usize(fields: &Vec<(String, String)>, key: &str) -> (r: Option<usize>)
    ensures
        r == field_usize(fields.deep_view(), key@),
{
    match get_field(fields, key) {
        Some(v) => parse_usize(v.as_str()),
        None => None,
    }
}

/// A key field parsed as a `bool`.
pub fn get_field_bool(fields: &Vec<(String, String)>, key: &str) -> (r: Option<bool>)
    ensures
        r == field_bool(fields.deep_view(), key@),
{
    match get_field(fields, key) {
        Some(v) => parse_bool(v.as_str()),
        None => None,
    }
}

// ---------------------------------------------------------------------------
// Links to related resources
// ---------------------------------------------------------------------------
/// Two links name the same resource with the same relationship.
pub open spec fn same_link(a: ResourceLinkView, b: ResourceLinkView) -> bool {
    a.kind == b.kind && a.name == b.name && a.namespace == b.namespace && a.relationship
        == b.relationship
}

/// No two links of the list are the same link.
pub open spec fn links_distinct(links: Seq<ResourceLinkView>) -> bool {
    forall|i: int, j: int|
        0 <= i < j < links.len() ==> !same_link(#[trigger] links[i], #[trigger] links[j])
}

/// The list has a link equal to `l`.
pub open spec fn has_link(links: Seq<ResourceLinkView>, l: ResourceLinkView) -> bool {
    exists|i: int| 0 <= i < links.len() && same_link(#[trigger] links[i], l)
}

/// Links after adding `l`: unchanged when `l` has an empty kind or name or
/// is already present, else `l` appended.
pub open spec fn links_after_push(links: Seq<ResourceLinkView>, l: ResourceLinkView) -> Seq<
    ResourceLinkView,
> {
    if l.kind.len() == 0 || l.name.len() == 0 || has_link(links, l) {
        links
    } else {
        links.push(l)
    }
}

fn opt_str_eq(a: &Option<String>, b: &Option<String>) -> (r: bool)
    ensures
        r == (a.deep_view() == b.deep_view()),
{
    match (a, b) {
        (Some(x), Some(y)) => str_eq(x.as_str(), y.as_str()),
        (None, None) => true,
        _ => false,
    }
}

/// Adds a link unless its kind or name is empty or an equal link is
/// already present.
pub fn push_resource_link(
    links: &mut Vec<ResourceLink>,
    kind: &str,
    name: &str,
    namespace: Option<String>,
    relationship: RelationshipType,
)
    ensures
        final(links).deep_view() == links_after_push(
            old(links).deep_view(),
            ResourceLinkView {
                kind: kind@,
                name: name@,
                namespace: namespace.deep_view(),
                relationship,
            },
        ),
{
    let ghost l = ResourceLinkView {
        kind: kind@,
        name: name@,
        namespace: namespace.deep_view(),
        relationship,
    };
    if kind.unicode_len() == 0 || name.unicode_len() == 0 {
        return;
    }
    let mut i: usize = 0;
    while i < links.len()
        invariant
            i <= links.len(),
            links.deep_view() == old(links).deep_view(),
            forall|k: int| 0 <= k < i ==> !same_link(#[trigger] links.deep_view()[k], l),
        decreases links.len() - i,
    {
        assert(links.deep_view()[i as int] == links@[i as int]@);
        if str_eq(links[i].kind.as_str(), kind) && str_eq(links[i].name.as_str(), name)
            && opt_str_eq(&links[i].namespace, &namespace) && links[i].relationship
            == relationship {
            assert(same_link(links.deep_view()[i as int], l));
            return;
        }
        i = i + 1;
    }
    let ghost before = links.deep_view();
    links.push(
        ResourceLink {
            kind: String::from_str(kind),
            name: String::from_str(name),
            namespace,
            relationship,
        },
    );
    assert(links.deep_view() =~= before.push(l));
}

/// Adding links keeps them free of duplicates.
pub proof fn lemma_push_keeps_links_distinct(links: Seq<ResourceLinkView>, l: ResourceLinkView)
    requires
        links_distinct(links),
    ensures
        links_distinct(links_after_push(links, l)),
        has_link(links_after_push(links, l), l) || l.kind.len() == 0 || l.name.len() == 0,
{
    let r = links_after_push(links, l);
    if !(l.kind.len() == 0 || l.name.len() == 0 || has_link(links, l)) {
        assert forall|i: int, j: int| 0 <= i < j < r.len() implies !same_link(
            #[trigger] r[i],
            #[trigger] r[j],
        ) by {
            if j == links.len() {
                assert(r[i] == links[i]);
            }
        }
        assert(same_link(r[links.len() as int], l));
    }
}

} // verus!
