//! The data behind the report: each resource as the frontend shows it,
//! grouped by triage section, with the counts of resources that need a
//! look. Turning it into JSON and writing the site is done by the program
//! around the library.
use crate::analyzers::{default_analyzers, dispatch, AnalyzerRegistry, RegisteredAnalyzer};
use crate::resources::{
    copy_opt_string, copy_string, field_bool, field_i64, field_usize, get_field, get_field_bool,
    get_field_i64, get_field_usize, join2, join3, lookup_field, str_eq, Condition,
    ConditionView, HealthStatus, OwnerReferenceView, RelationshipType, ResourceLinkView,
    ResourceSnapshot, SnapshotView,
};
use crate::kinds::apps::deployment_view;
use crate::kinds::int_or;
use crate::manifest::ManifestView;
use crate::mustgather::MustGather;
use crate::text::{decimal, lemma_parse_decimal, lowercase, seq_contains, str_contains, to_lowercase};
use crate::types::{HealthAnalysis, HealthAnalysisView};
use vstd::prelude::*;

verus! {

// ---------------------------------------------------------------------------
// Serializable resource data
// ---------------------------------------------------------------------------
/// A container log of a resource
#[derive(Debug)]
pub struct ResourceLogData {
    pub container: String,
    pub content: String,
    pub path: Option<String>,
}

pub struct ResourceLogDataView {
    pub container: Seq<char>,
    pub content: Seq<char>,
    pub path: Option<Seq<char>>,
}

impl View for ResourceLogData {
    type V = ResourceLogDataView;

    open spec fn view(&self) -> ResourceLogDataView {
        ResourceLogDataView {
            container: self.container@,
            content: self.content@,
            path: self.path.deep_view(),
        }
    }
}

impl DeepView for ResourceLogData {
    type V = ResourceLogDataView;

    open spec fn deep_view(&self) -> ResourceLogDataView {
        self@
    }
}

/// An owner reference of a resource
#[derive(Debug)]
pub struct ResourceOwnerReferenceData {
    pub kind: String,
    pub name: String,
    pub uid: Option<String>,
    pub controller: Option<bool>,
}

impl View for ResourceOwnerReferenceData {
    type V = OwnerReferenceView;

    open spec fn view(&self) -> OwnerReferenceView {
        OwnerReferenceView {
            kind: self.kind@,
            name: self.name@,
            uid: self.uid.deep_view(),
            controller: self.controller,
        }
    }
}

impl DeepView for ResourceOwnerReferenceData {
    type V = OwnerReferenceView;

    open spec fn deep_view(&self) -> OwnerReferenceView {
        self@
    }
}

/// A relationship of a resource, with the relationship as text
#[derive(Debug)]
pub struct ResourceRelationshipData {
    pub kind: String,
    pub name: String,
    pub namespace: Option<String>,
    pub relationship: String,
}

pub struct ResourceRelationshipDataView {
    pub kind: Seq<char>,
    pub name: Seq<char>,
    pub namespace: Option<Seq<char>>,
    pub relationship: Seq<char>,
}

impl View for ResourceRelationshipData {
    type V = ResourceRelationshipDataView;

    open spec fn view(&self) -> ResourceRelationshipDataView {
        ResourceRelationshipDataView {
            kind: self.kind@,
            name: self.name@,
            namespace: self.namespace.deep_view(),
            relationship: self.relationship@,
        }
    }
}

impl DeepView for ResourceRelationshipData {
    type V = ResourceRelationshipDataView;

    open spec fn deep_view(&self) -> ResourceRelationshipDataView {
        self@
    }
}

/// Serializable representation of a resource for the frontend. The maps
/// of the frontend are lists of entries here, in insertion order.
#[derive(Debug)]
pub struct ResourceData {
    pub uid: String,
    pub name: String,
    pub kind: String,
    pub namespace: Option<String>,
    pub creation_timestamp: Option<String>,
    pub status: String,
    pub errors: Vec<String>,
    pub warnings: Vec<String>,
    pub raw: String,
    pub raw_path: Option<String>,
    pub logs: Vec<ResourceLogData>,
    pub logs_path: Option<String>,
    pub labels: Vec<(String, String)>,
    pub annotations: Vec<(String, String)>,
    pub owner_references: Vec<ResourceOwnerReferenceData>,
    pub relationships: Vec<ResourceRelationshipData>,
    pub key_fields: Vec<(String, String)>,
    pub metadata: Vec<(String, String)>,
    pub health_analysis: Option<HealthAnalysis>,
    pub detail_path: Option<String>,
}

pub struct ResourceDataView {
    pub uid: Seq<char>,
    pub name: Seq<char>,
    pub kind: Seq<char>,
    pub namespace: Option<Seq<char>>,
    pub creation_timestamp: Option<Seq<char>>,
    pub status: Seq<char>,
    pub errors: Seq<Seq<char>>,
    pub warnings: Seq<Seq<char>>,
    pub raw: Seq<char>,
    pub raw_path: Option<Seq<char>>,
    pub logs: Seq<ResourceLogDataView>,
    pub logs_path: Option<Seq<char>>,
    pub labels: Seq<(Seq<char>, Seq<char>)>,
    pub annotations: Seq<(Seq<char>, Seq<char>)>,
    pub owner_references: Seq<OwnerReferenceView>,
    pub relationships: Seq<ResourceRelationshipDataView>,
    pub key_fields: Seq<(Seq<char>, Seq<char>)>,
    pub metadata: Seq<(Seq<char>, Seq<char>)>,
    pub health_analysis: Option<HealthAnalysisView>,
    pub detail_path: Option<Seq<char>>,
}

impl View for ResourceData {
    type V = ResourceDataView;

    open spec fn view(&self) -> ResourceDataView {
        ResourceDataView {
            uid: self.uid@,
            name: self.name@,
            kind: self.kind@,
            namespace: self.namespace.deep_view(),
            creation_timestamp: self.creation_timestamp.deep_view(),
            status: self.status@,
            errors: self.errors.deep_view(),
            warnings: self.warnings.deep_view(),
            raw: self.raw@,
            raw_path: self.raw_path.deep_view(),
            logs: self.logs.deep_view(),
            logs_path: self.logs_path.deep_view(),
            labels: self.labels.deep_view(),
            annotations: self.annotations.deep_view(),
            owner_references: self.owner_references.deep_view(),
            relationships: self.relationships.deep_view(),
            key_fields: self.key_fields.deep_view(),
            metadata: self.metadata.deep_view(),
            health_analysis: match self.health_analysis {
                Some(a) => Some(a@),
                None => None,
            },
            detail_path: self.detail_path.deep_view(),
        }
    }
}

impl DeepView for ResourceData {
    type V = ResourceDataView;

    open spec fn deep_view(&self) -> ResourceDataView {
        self@
    }
}

// ---------------------------------------------------------------------------
// What the report shows of one resource
// ---------------------------------------------------------------------------
/// The debug name of a health status.
pub open spec fn status_text(h: HealthStatus) -> Seq<char> {
    match h {
        HealthStatus::Healthy => "Healthy"@,
        HealthStatus::Warning => "Warning"@,
        HealthStatus::Error => "Error"@,
        HealthStatus::Unknown => "Unknown"@,
    }
}

/// The name of a relationship type.
pub open spec fn relationship_text(r: RelationshipType) -> Seq<char> {
    match r {
        RelationshipType::Owns => "Owns"@,
        RelationshipType::OwnedBy => "OwnedBy"@,
        RelationshipType::References => "References"@,
        RelationshipType::ReferencedBy => "ReferencedBy"@,
        RelationshipType::Controls => "Controls"@,
        RelationshipType::ControlledBy => "ControlledBy"@,
    }
}

/// The id under which the report files a resource: its metadata uid, or
/// `kind__namespace__name` (`kind__name` without a namespace) with the kind
/// in lower case.
pub open spec fn report_uid(r: SnapshotView) -> Seq<char> {
    if r.metadata.uid.len() == 0 {
        match r.metadata.namespace {
            Some(ns) => lowercase(r.kind) + "__"@ + ns + "__"@ + r.name,
            None => lowercase(r.kind) + "__"@ + r.name,
        }
    } else {
        r.metadata.uid
    }
}

/// The metadata entries of the full report: uid, namespace, each label and
/// each annotation (prefixed), creation time.
pub open spec fn metadata_entries(r: SnapshotView) -> Seq<(Seq<char>, Seq<char>)> {
    let m = r.metadata;
    seq![("uid"@, m.uid)] + match m.namespace {
        Some(ns) => seq![("namespace"@, ns)],
        None => Seq::empty(),
    } + m.labels.map_values(|p: (Seq<char>, Seq<char>)| ("label:"@ + p.0, p.1))
        + m.annotations.map_values(|p: (Seq<char>, Seq<char>)| ("annotation:"@ + p.0, p.1))
        + match m.creation_timestamp {
        Some(t) => seq![("creation_timestamp"@, t)],
        None => Seq::empty(),
    }
}

/// The key fields the summary keeps for a kind.
pub open spec fn summary_key(kind: Seq<char>, key: Seq<char>) -> bool {
    if kind == "Pod"@ {
        key == "phase"@ || key == "restart_count"@
    } else if kind == "Deployment"@ || kind == "ReplicaSet"@ || kind == "StatefulSet"@ {
        key == "ready_replicas"@ || key == "replicas"@ || key == "available_replicas"@
    } else if kind == "DaemonSet"@ {
        key == "desired_number_scheduled"@ || key == "current_number_scheduled"@ || key
            == "number_ready"@
    } else if kind == "Job"@ {
        key == "completions"@ || key == "succeeded"@ || key == "failed"@
    } else if kind == "CronJob"@ {
        key == "schedule"@ || key == "suspend"@
    } else if kind == "ConfigMap"@ {
        key == "data_count"@ || key == "binary_data_count"@ || key == "immutable"@
    } else if kind == "Secret"@ {
        key == "type"@ || key == "data_count"@ || key == "immutable"@
    } else if kind == "Service"@ {
        key == "selector"@ || key == "type"@ || key == "cluster_ip"@ || key == "ports"@
    } else if kind == "Route"@ {
        key == "host"@ || key == "service_name"@ || key == "tls_termination"@
    } else if kind == "IngressController"@ {
        key == "domain"@ || key == "available"@
    } else if kind == "Machine"@ {
        key == "phase"@ || key == "provider_id"@
    } else if kind == "MachineAutoscaler"@ {
        key == "min_replicas"@ || key == "max_replicas"@
    } else if kind == "MachineHealthCheck"@ {
        key == "current_healthy"@ || key == "expected_machines"@ || key == "remediations_allowed"@
            || key == "max_unhealthy"@ || key == "remediation_allowed"@
    } else if kind == "ControlPlaneMachineSet"@ {
        key == "ready"@
    } else if kind == "MachineSet"@ {
        key == "replicas"@ || key == "autoscaling"@
    } else if kind == "MachineConfig"@ {
        key == "os_image_url"@
    } else if kind == "MachineConfigPool"@ {
        key == "degraded"@ || key == "updating"@ || key == "machine_count"@ || key
            == "ready_machine_count"@
    } else if kind == "MachineConfiguration"@ {
        key == "boot_image_update_degraded"@ || key == "boot_image_update_progressing"@
    } else if kind == "Event"@ {
        key == "type"@ || key == "reason"@ || key == "count"@ || key == "message"@ || key
            == "involved_kind"@ || key == "involved_name"@ || key == "timestamp"@ || key
            == "reporting_component"@
    } else if kind == "CustomResourceDefinition"@ {
        key == "crd_group"@ || key == "crd_plural"@ || key == "crd_kind"@ || key == "crd_scope"@
    } else {
        false
    }
}

/// Kinds whose labels the summary keeps.
pub open spec fn summary_keeps_labels(kind: Seq<char>) -> bool {
    kind == "Pod"@ || kind == "Job"@
}

/// Kinds whose owner references the summary keeps.
pub open spec fn summary_keeps_owners(kind: Seq<char>) -> bool {
    kind == "Pod"@ || kind == "Job"@ || kind == "ReplicaSet"@ || kind == "Deployment"@ || kind
        == "StatefulSet"@ || kind == "DaemonSet"@ || kind == "Machine"@ || kind == "MachineSet"@
        || kind == "MachineAutoscaler"@
}

/// The one annotation the summary keeps.
pub open spec fn instantiate_annotation(p: (Seq<char>, Seq<char>)) -> bool {
    p.0 == "cronjob.kubernetes.io/instantiate"@
}

/// The relationships of a resource as the report lists them.
pub open spec fn relationship_entries(links: Seq<ResourceLinkView>) -> Seq<ResourceRelationshipDataView> {
    links.map_values(
        |l: ResourceLinkView|
            ResourceRelationshipDataView {
                kind: l.kind,
                name: l.name,
                namespace: l.namespace,
                relationship: relationship_text(l.relationship),
            },
    )
}

/// The logs of a resource as the report lists them.
pub open spec fn log_entries(r: SnapshotView) -> Seq<ResourceLogDataView> {
    r.logs.map_values(
        |c: crate::resources::ContainerView|
            ResourceLogDataView {
                container: c.name,
                content: c.current_log,
                path: c.current_log_path,
            },
    )
}

/// The report's entry for a resource, in full or as a summary; the health
/// analysis is the one the analyzers give.
pub open spec fn resource_data(
    r: SnapshotView,
    analyzers: Seq<RegisteredAnalyzer>,
    summary_only: bool,
) -> ResourceDataView {
    let uid = report_uid(r);
    ResourceDataView {
        uid,
        name: r.name,
        kind: r.kind,
        namespace: r.namespace,
        creation_timestamp: r.metadata.creation_timestamp,
        status: status_text(r.health_status),
        errors: r.errors,
        warnings: r.warnings,
        raw: if summary_only {
            Seq::empty()
        } else {
            r.raw
        },
        raw_path: if summary_only {
            None
        } else {
            Some("data/raw/"@ + uid + ".js"@)
        },
        logs: if summary_only {
            Seq::empty()
        } else {
            log_entries(r)
        },
        logs_path: if summary_only || r.kind != "Pod"@ {
            None
        } else {
            Some("data/logs/"@ + uid + ".js"@)
        },
        labels: if summary_only && !summary_keeps_labels(r.kind) {
            Seq::empty()
        } else {
            r.metadata.labels
        },
        annotations: if summary_only {
            r.metadata.annotations.filter(|p: (Seq<char>, Seq<char>)| instantiate_annotation(p))
        } else {
            r.metadata.annotations
        },
        owner_references: if summary_only && !summary_keeps_owners(r.kind) {
            Seq::empty()
        } else {
            r.owner_references
        },
        relationships: relationship_entries(r.relationships),
        key_fields: if summary_only {
            r.key_fields.filter(|p: (Seq<char>, Seq<char>)| summary_key(r.kind, p.0))
        } else {
            r.key_fields
        },
        metadata: if summary_only {
            Seq::empty()
        } else {
            metadata_entries(r)
        },
        health_analysis: if summary_only {
            None
        } else {
            Some(dispatch(analyzers, r))
        },
        detail_path: None,
    }
}

/// A copy of a list of strings.
pub fn copy_strings(v: &Vec<String>) -> (r: Vec<String>)
    ensures
        r.deep_view() == v.deep_view(),
{
    let mut out: Vec<String> = Vec::new();
    let mut i: usize = 0;
    while i < v.len()
        invariant
            i <= v.len(),
            out.deep_view() =~= v.deep_view().take(i as int),
        decreases v.len() - i,
    {
        out.push(copy_string(&v[i]));
        i = i + 1;
    }
    assert(v.deep_view().take(v.len() as int) =~= v.deep_view());
    out
}

/// The entries of a list of pairs that meet the summary's rule for keys of
/// `kind` (`keep_all` keeps every entry).
fn copy_pairs_where(
    v: &Vec<(String, String)>,
    kind: &str,
    rule: PairRule,
) -> (r: Vec<(String, String)>)
    ensures
        r.deep_view() == v.deep_view().filter(|p: (Seq<char>, Seq<char>)| pair_rule_holds(rule, kind@, p)),
{
    let ghost f = |p: (Seq<char>, Seq<char>)| pair_rule_holds(rule, kind@, p);
    let mut out: Vec<(String, String)> = Vec::new();
    let mut i: usize = 0;
    assert(v.deep_view().take(0) =~= Seq::<(Seq<char>, Seq<char>)>::empty());
    while i < v.len()
        invariant
            i <= v.len(),
            out.deep_view() == v.deep_view().take(i as int).filter(f),
        decreases v.len() - i,
    {
        assert(v.deep_view().take(i + 1).drop_last() =~= v.deep_view().take(i as int));
        assert(v.deep_view()[i as int] == (v@[i as int].0@, v@[i as int].1@));
        let keep = match rule {
            PairRule::All => true,
            PairRule::SummaryKey => is_summary_key(kind, v[i].0.as_str()),
            PairRule::InstantiateAnnotation => str_eq(
                v[i].0.as_str(),
                "cronjob.kubernetes.io/instantiate",
            ),
        };
        let ghost before = out.deep_view();
        assert(v.deep_view().take(i + 1).last() == v.deep_view()[i as int]);
        assert(keep == f(v.deep_view()[i as int]));
        reveal(Seq::filter);
        assert(v.deep_view().take(i + 1).filter(f) == if f(v.deep_view()[i as int]) {
            v.deep_view().take(i as int).filter(f).push(v.deep_view()[i as int])
        } else {
            v.deep_view().take(i as int).filter(f)
        });
        if keep {
            out.push((copy_string(&v[i].0), copy_string(&v[i].1)));
            assert(out.deep_view() =~= before.push(v.deep_view()[i as int]));
        }
        i = i + 1;
    }
    assert(v.deep_view().take(v.len() as int) =~= v.deep_view());
    out
}

/// Which entries of a list of pairs a copy keeps.
pub enum PairRule {
    All,
    SummaryKey,
    InstantiateAnnotation,
}

/// The entry is kept under the rule.
pub open spec fn pair_rule_holds(rule: PairRule, kind: Seq<char>, p: (Seq<char>, Seq<char>)) -> bool {
    match rule {
        PairRule::All => true,
        PairRule::SummaryKey => summary_key(kind, p.0),
        PairRule::InstantiateAnnotation => instantiate_annotation(p),
    }
}

/// Whether the summary keeps the key field `key` of a `kind`.
fn is_summary_key(kind: &str, key: &str) -> (r: bool)
    ensures
        r == summary_key(kind@, key@),
{
    let is = |k: &str| -> (b: bool)
        ensures
            b == (key@ == k@),
        { str_eq(key, k) };
    if str_eq(kind, "Pod") {
        is("phase") || is("restart_count")
    } else if str_eq(kind, "Deployment") || str_eq(kind, "ReplicaSet") || str_eq(
        kind,
        "StatefulSet",
    ) {
        is("ready_replicas") || is("replicas") || is("available_replicas")
    } else if str_eq(kind, "DaemonSet") {
        is("desired_number_scheduled") || is("current_number_scheduled") || is("number_ready")
    } else if str_eq(kind, "Job") {
        is("completions") || is("succeeded") || is("failed")
    } else if str_eq(kind, "CronJob") {
        is("schedule") || is("suspend")
    } else if str_eq(kind, "ConfigMap") {
        is("data_count") || is("binary_data_count") || is("immutable")
    } else if str_eq(kind, "Secret") {
        is("type") || is("data_count") || is("immutable")
    } else if str_eq(kind, "Service") {
        is("selector") || is("type") || is("cluster_ip") || is("ports")
    } else if str_eq(kind, "Route") {
        is("host") || is("service_name") || is("tls_termination")
    } else if str_eq(kind, "IngressController") {
        is("domain") || is("available")
    } else if str_eq(kind, "Machine") {
        is("phase") || is("provider_id")
    } else if str_eq(kind, "MachineAutoscaler") {
        is("min_replicas") || is("max_replicas")
    } else if str_eq(kind, "MachineHealthCheck") {
        is("current_healthy") || is("expected_machines") || is("remediations_allowed") || is(
            "max_unhealthy",
        ) || is("remediation_allowed")
    } else if str_eq(kind, "ControlPlaneMachineSet") {
        is("ready")
    } else if str_eq(kind, "MachineSet") {
        is("replicas") || is("autoscaling")
    } else if str_eq(kind, "MachineConfig") {
        is("os_image_url")
    } else if str_eq(kind, "MachineConfigPool") {
        is("degraded") || is("updating") || is("machine_count") || is("ready_machine_count")
    } else if str_eq(kind, "MachineConfiguration") {
        is("boot_image_update_degraded") || is("boot_image_update_progressing")
    } else if str_eq(kind, "Event") {
        is("type") || is("reason") || is("count") || is("message") || is("involved_kind") || is(
            "involved_name",
        ) || is("timestamp") || is("reporting_component")
    } else if str_eq(kind, "CustomResourceDefinition") {
        is("crd_group") || is("crd_plural") || is("crd_kind") || is("crd_scope")
    } else {
        false
    }
}

/// Whether the summary keeps the labels of a `kind`.
fn keeps_labels(kind: &str) -> (r: bool)
    ensures
        r == summary_keeps_labels(kind@),
{
    str_eq(kind, "Pod") || str_eq(kind, "Job")
}

/// Whether the summary keeps the owner references of a `kind`.
fn keeps_owners(kind: &str) -> (r: bool)
    ensures
        r == summary_keeps_owners(kind@),
{
    str_eq(kind, "Pod") || str_eq(kind, "Job") || str_eq(kind, "ReplicaSet") || str_eq(
        kind,
        "Deployment",
    ) || str_eq(kind, "StatefulSet") || str_eq(kind, "DaemonSet") || str_eq(kind, "Machine")
        || str_eq(kind, "MachineSet") || str_eq(kind, "MachineAutoscaler")
}

/// The report id of a resource.
fn report_uid_of(r: &ResourceSnapshot) -> (u: String)
    ensures
        u@ == report_uid(r@),
{
    if r.metadata.uid.unicode_len() == 0 {
        let kind = to_lowercase(r.kind.as_str());
        match &r.metadata.namespace {
            Some(ns) => {
                let mut u = join3(kind.as_str(), "__", ns.as_str());
                u.append("__");
                u.append(r.name.as_str());
                u
            },
            None => join3(kind.as_str(), "__", r.name.as_str()),
        }
    } else {
        copy_string(&r.metadata.uid)
    }
}

/// The metadata entries of the full report.
fn metadata_entries_of(r: &ResourceSnapshot) -> (out: Vec<(String, String)>)
    ensures
        out.deep_view() == metadata_entries(r@),
{
    let m = &r.metadata;
    let mut out: Vec<(String, String)> = Vec::new();
    out.push((String::from_str("uid"), copy_string(&m.uid)));
    let ghost part1 = out.deep_view();
    assert(part1 =~= seq![("uid"@, m.uid@)]);
    match &m.namespace {
        Some(ns) => {
            out.push((String::from_str("namespace"), copy_string(ns)));
        },
        None => {},
    }
    let ghost part2 = out.deep_view();
    assert(part2 =~= part1 + match m@.namespace {
        Some(ns) => seq![("namespace"@, ns)],
        None => Seq::<(Seq<char>, Seq<char>)>::empty(),
    });
    let ghost lf = |p: (Seq<char>, Seq<char>)| ("label:"@ + p.0, p.1);
    let mut i: usize = 0;
    while i < m.labels.len()
        invariant
            i <= m.labels.len(),
            out.deep_view() =~= part2 + m@.labels.take(i as int).map_values(lf),
        decreases m.labels.len() - i,
    {
        assert(m@.labels[i as int] == (m.labels@[i as int].0@, m.labels@[i as int].1@));
        let ghost before = out.deep_view();
        let entry = (join2("label:", m.labels[i].0.as_str()), copy_string(&m.labels[i].1));
        let ghost ev = (entry.0@, entry.1@);
        out.push(entry);
        assert(out.deep_view() =~= before.push(ev));
        assert(m@.labels.take(i + 1).map_values(lf) =~= m@.labels.take(i as int).map_values(
            lf,
        ).push(lf(m@.labels[i as int])));
        i = i + 1;
    }
    assert(m@.labels.take(m.labels.len() as int) =~= m@.labels);
    let ghost part3 = out.deep_view();
    let ghost af = |p: (Seq<char>, Seq<char>)| ("annotation:"@ + p.0, p.1);
    let mut j: usize = 0;
    while j < m.annotations.len()
        invariant
            j <= m.annotations.len(),
            out.deep_view() =~= part3 + m@.annotations.take(j as int).map_values(af),
        decreases m.annotations.len() - j,
    {
        assert(m@.annotations[j as int] == (
            m.annotations@[j as int].0@,
            m.annotations@[j as int].1@,
        ));
        let ghost before = out.deep_view();
        let entry = (
            join2("annotation:", m.annotations[j].0.as_str()),
            copy_string(&m.annotations[j].1),
        );
        let ghost ev = (entry.0@, entry.1@);
        out.push(entry);
        assert(out.deep_view() =~= before.push(ev));
        assert(m@.annotations.take(j + 1).map_values(af) =~= m@.annotations.take(
            j as int,
        ).map_values(af).push(af(m@.annotations[j as int])));
        j = j + 1;
    }
    assert(m@.annotations.take(m.annotations.len() as int) =~= m@.annotations);
    let ghost part4 = out.deep_view();
    match &m.creation_timestamp {
        Some(t) => {
            out.push((String::from_str("creation_timestamp"), copy_string(t)));
        },
        None => {},
    }
    assert(out.deep_view() =~= part4 + match m@.creation_timestamp {
        Some(t) => seq![("creation_timestamp"@, t)],
        None => Seq::<(Seq<char>, Seq<char>)>::empty(),
    });
    out
}

/// The debug name of a health status.
pub fn status_name(h: HealthStatus) -> (r: String)
    ensures
        r@ == status_text(h),
{
    match h {
        HealthStatus::Healthy => String::from_str("Healthy"),
        HealthStatus::Warning => String::from_str("Warning"),
        HealthStatus::Error => String::from_str("Error"),
        HealthStatus::Unknown => String::from_str("Unknown"),
    }
}

/// The name of a relationship type.
pub fn relationship_name(r: RelationshipType) -> (s: String)
    ensures
        s@ == relationship_text(r),
{
    match r {
        RelationshipType::Owns => String::from_str("Owns"),
        RelationshipType::OwnedBy => String::from_str("OwnedBy"),
        RelationshipType::References => String::from_str("References"),
        RelationshipType::ReferencedBy => String::from_str("ReferencedBy"),
        RelationshipType::Controls => String::from_str("Controls"),
        RelationshipType::ControlledBy => String::from_str("ControlledBy"),
    }
}

/// The owner references of a resource as report entries.
fn owner_entries(r: &ResourceSnapshot) -> (out: Vec<ResourceOwnerReferenceData>)
    ensures
        out.deep_view() == r@.owner_references,
{
    let mut out: Vec<ResourceOwnerReferenceData> = Vec::new();
    let mut i: usize = 0;
    while i < r.owner_references.len()
        invariant
            i <= r.owner_references.len(),
            out.deep_view() =~= r@.owner_references.take(i as int),
        decreases r.owner_references.len() - i,
    {
        let o = &r.owner_references[i];
        let ghost before = out.deep_view();
        let e = ResourceOwnerReferenceData {
            kind: copy_string(&o.kind),
            name: copy_string(&o.name),
            uid: copy_opt_string(&o.uid),
            controller: o.controller,
        };
        assert(e@ == r@.owner_references[i as int]);
        out.push(e);
        assert(out.deep_view() =~= before.push(e@));
        i = i + 1;
    }
    assert(r@.owner_references.take(r.owner_references.len() as int) =~= r@.owner_references);
    out
}

/// The relationships of a resource as report entries.
fn relationship_entries_of(r: &ResourceSnapshot) -> (out: Vec<ResourceRelationshipData>)
    ensures
        out.deep_view() == relationship_entries(r@.relationships),
{
    let ghost links = r@.relationships;
    let mut out: Vec<ResourceRelationshipData> = Vec::new();
    let mut i: usize = 0;
    while i < r.relationships.len()
        invariant
            i <= r.relationships.len(),
            links == r@.relationships,
            out.deep_view() =~= relationship_entries(links.take(i as int)),
        decreases r.relationships.len() - i,
    {
        let l = &r.relationships[i];
        let ghost before = out.deep_view();
        let e = ResourceRelationshipData {
            kind: copy_string(&l.kind),
            name: copy_string(&l.name),
            namespace: copy_opt_string(&l.namespace),
            relationship: relationship_name(l.relationship),
        };
        assert(links[i as int] == l@);
        out.push(e);
        assert(out.deep_view() =~= before.push(e@));
        assert(relationship_entries(links.take(i + 1)) =~= relationship_entries(
            links.take(i as int),
        ).push(e@));
        i = i + 1;
    }
    assert(links.take(r.relationships.len() as int) =~= links);
    out
}

/// The logs of a resource as report entries.
fn log_entries_of(r: &ResourceSnapshot) -> (out: Vec<ResourceLogData>)
    ensures
        out.deep_view() == log_entries(r@),
{
    let ghost logs = r@.logs;
    let mut out: Vec<ResourceLogData> = Vec::new();
    let mut i: usize = 0;
    while i < r.logs.len()
        invariant
            i <= r.logs.len(),
            logs == r@.logs,
            out.deep_view() =~= log_entries(r@).take(i as int),
        decreases r.logs.len() - i,
    {
        let c = &r.logs[i];
        let ghost before = out.deep_view();
        let e = ResourceLogData {
            container: copy_string(&c.name),
            content: copy_string(&c.current_log),
            path: copy_opt_string(&c.current_log_path),
        };
        assert(logs[i as int] == c@);
        out.push(e);
        assert(out.deep_view() =~= before.push(e@));
        i = i + 1;
    }
    assert(log_entries(r@).take(r.logs.len() as int) =~= log_entries(r@));
    out
}

/// A copy of a list of pairs of strings.
fn copy_pairs(v: &Vec<(String, String)>) -> (r: Vec<(String, String)>)
    ensures
        r.deep_view() == v.deep_view(),
{
    let mut out: Vec<(String, String)> = Vec::new();
    let mut i: usize = 0;
    while i < v.len()
        invariant
            i <= v.len(),
            out.deep_view() =~= v.deep_view().take(i as int),
        decreases v.len() - i,
    {
        let ghost before = out.deep_view();
        let e = (copy_string(&v[i].0), copy_string(&v[i].1));
        let ghost ev = (e.0@, e.1@);
        out.push(e);
        assert(out.deep_view() =~= before.push(ev));
        i = i + 1;
    }
    assert(v.deep_view().take(v.len() as int) =~= v.deep_view());
    out
}

/// The report's entry for a resource, in full or as a summary.
pub fn serialize_resource(
    r: &ResourceSnapshot,
    analyzer_registry: &AnalyzerRegistry,
    summary_only: bool,
) -> (d: ResourceData)
    ensures
        d@ == resource_data(r@, analyzer_registry.analyzers@, summary_only),
{
    proof {
        reveal_strlit("");
    }
    let uid = report_uid_of(r);
    let kind = r.kind.as_str();
    let raw_path = if summary_only {
        None
    } else {
        let mut p = join2("data/raw/", uid.as_str());
        p.append(".js");
        Some(p)
    };
    let logs_path = if summary_only || !str_eq(kind, "Pod") {
        None
    } else {
        let mut p = join2("data/logs/", uid.as_str());
        p.append(".js");
        Some(p)
    };
    let labels = if summary_only && !keeps_labels(kind) {
        Vec::new()
    } else {
        copy_pairs(&r.metadata.labels)
    };
    let annotations = if summary_only {
        copy_pairs_where(&r.metadata.annotations, kind, PairRule::InstantiateAnnotation)
    } else {
        copy_pairs(&r.metadata.annotations)
    };
    let owner_references = if summary_only && !keeps_owners(kind) {
        Vec::new()
    } else {
        owner_entries(r)
    };
    let key_fields = if summary_only {
        copy_pairs_where(&r.key_fields, kind, PairRule::SummaryKey)
    } else {
        copy_pairs(&r.key_fields)
    };
    let metadata = if summary_only {
        Vec::new()
    } else {
        metadata_entries_of(r)
    };
    let health_analysis = if summary_only {
        None
    } else {
        Some(analyzer_registry.analyze(r))
    };
    let d = ResourceData {
        uid: copy_string(&uid),
        name: copy_string(&r.name),
        kind: copy_string(&r.kind),
        namespace: copy_opt_string(&r.namespace),
        creation_timestamp: copy_opt_string(&r.metadata.creation_timestamp),
        status: status_name(r.health_status),
        errors: copy_strings(&r.errors),
        warnings: copy_strings(&r.warnings),
        raw: if summary_only {
            String::new()
        } else {
            copy_string(&r.raw)
        },
        raw_path,
        logs: if summary_only {
            Vec::new()
        } else {
            log_entries_of(r)
        },
        logs_path,
        labels,
        annotations,
        owner_references,
        relationships: relationship_entries_of(r),
        key_fields,
        metadata,
        health_analysis,
        detail_path: None,
    };
    proof {
        let rd = resource_data(r@, analyzer_registry.analyzers@, summary_only);
        let f1 = |p: (Seq<char>, Seq<char>)|
            pair_rule_holds(PairRule::InstantiateAnnotation, r@.kind, p);
        let g1 = |p: (Seq<char>, Seq<char>)| instantiate_annotation(p);
        assert(f1 =~= g1);
        let f2 = |p: (Seq<char>, Seq<char>)| pair_rule_holds(PairRule::SummaryKey, r@.kind, p);
        let g2 = |p: (Seq<char>, Seq<char>)| summary_key(r@.kind, p.0);
        assert(f2 =~= g2);
        if summary_only {
            assert(d@.labels =~= rd.labels);
            assert(d@.logs =~= rd.logs);
            assert(d@.owner_references =~= rd.owner_references);
            assert(d@.metadata =~= rd.metadata);
            assert(d@.annotations =~= rd.annotations);
        }
        assert(d@.key_fields =~= rd.key_fields);
        assert(d@ == rd);
    }
    d
}

/// The report's entries for a list of resources, in order.
pub fn serialize_resources(
    resources: &Vec<ResourceSnapshot>,
    analyzer_registry: &AnalyzerRegistry,
    summary_only: bool,
) -> (out: Vec<ResourceData>)
    ensures
        out.deep_view() == resources.deep_view().map_values(
            |r: SnapshotView| resource_data(r, analyzer_registry.analyzers@, summary_only),
        ),
{
    let ghost f = |r: SnapshotView| resource_data(r, analyzer_registry.analyzers@, summary_only);
    let mut out: Vec<ResourceData> = Vec::new();
    let mut i: usize = 0;
    while i < resources.len()
        invariant
            i <= resources.len(),
            out.deep_view() =~= resources.deep_view().take(i as int).map_values(f),
        decreases resources.len() - i,
    {
        let d = serialize_resource(&resources[i], analyzer_registry, summary_only);
        let ghost before = out.deep_view();
        let ghost dv = d@;
        out.push(d);
        assert(out.deep_view() =~= before.push(dv));
        assert(resources.deep_view().take(i + 1).map_values(f) =~= resources.deep_view().take(
            i as int,
        ).map_values(f).push(f(resources.deep_view()[i as int])));
        i = i + 1;
    }
    assert(resources.deep_view().take(resources.len() as int) =~= resources.deep_view());
    out
}

/// A copy of the entry with its logs dropped.
pub fn strip_logs(resource: &ResourceData) -> (r: ResourceData)
    ensures
        r@ == (ResourceDataView { logs: Seq::empty(), ..resource@ }),
{
    let r = ResourceData {
        uid: copy_string(&resource.uid),
        name: copy_string(&resource.name),
        kind: copy_string(&resource.kind),
        namespace: copy_opt_string(&resource.namespace),
        creation_timestamp: copy_opt_string(&resource.creation_timestamp),
        status: copy_string(&resource.status),
        errors: copy_strings(&resource.errors),
        warnings: copy_strings(&resource.warnings),
        raw: copy_string(&resource.raw),
        raw_path: copy_opt_string(&resource.raw_path),
        logs: Vec::new(),
        logs_path: copy_opt_string(&resource.logs_path),
        labels: copy_pairs(&resource.labels),
        annotations: copy_pairs(&resource.annotations),
        owner_references: copy_owner_entries(&resource.owner_references),
        relationships: copy_relationship_entries(&resource.relationships),
        key_fields: copy_pairs(&resource.key_fields),
        metadata: copy_pairs(&resource.metadata),
        health_analysis: match &resource.health_analysis {
            Some(a) => Some(a.copy()),
            None => None,
        },
        detail_path: copy_opt_string(&resource.detail_path),
    };
    assert(r@.logs =~= Seq::<ResourceLogDataView>::empty());
    r
}

/// A copy of the entry with its logs and its YAML text dropped.
pub fn strip_raw_and_logs(resource: &ResourceData) -> (r: ResourceData)
    ensures
        r@ == (ResourceDataView { logs: Seq::empty(), raw: Seq::empty(), ..resource@ }),
{
    let mut r = strip_logs(resource);
    r.raw = String::new();
    r
}

/// A copy of owner reference entries.
fn copy_owner_entries(v: &Vec<ResourceOwnerReferenceData>) -> (r: Vec<ResourceOwnerReferenceData>)
    ensures
        r.deep_view() == v.deep_view(),
{
    let mut out: Vec<ResourceOwnerReferenceData> = Vec::new();
    let mut i: usize = 0;
    while i < v.len()
        invariant
            i <= v.len(),
            out.deep_view() =~= v.deep_view().take(i as int),
        decreases v.len() - i,
    {
        let o = &v[i];
        let ghost before = out.deep_view();
        let e = ResourceOwnerReferenceData {
            kind: copy_string(&o.kind),
            name: copy_string(&o.name),
            uid: copy_opt_string(&o.uid),
            controller: o.controller,
        };
        out.push(e);
        assert(out.deep_view() =~= before.push(e@));
        i = i + 1;
    }
    assert(v.deep_view().take(v.len() as int) =~= v.deep_view());
    out
}

/// A copy of relationship entries.
fn copy_relationship_entries(v: &Vec<ResourceRelationshipData>) -> (r: Vec<
    ResourceRelationshipData,
>)
    ensures
        r.deep_view() == v.deep_view(),
{
    let mut out: Vec<ResourceRelationshipData> = Vec::new();
    let mut i: usize = 0;
    while i < v.len()
        invariant
            i <= v.len(),
            out.deep_view() =~= v.deep_view().take(i as int),
        decreases v.len() - i,
    {
        let o = &v[i];
        let ghost before = out.deep_view();
        let e = ResourceRelationshipData {
            kind: copy_string(&o.kind),
            name: copy_string(&o.name),
            namespace: copy_opt_string(&o.namespace),
            relationship: copy_string(&o.relationship),
        };
        out.push(e);
        assert(out.deep_view() =~= before.push(e@));
        i = i + 1;
    }
    assert(v.deep_view().take(v.len() as int) =~= v.deep_view());
    out
}

// ---------------------------------------------------------------------------
// Counts of resources that need a look
// ---------------------------------------------------------------------------
/// The resources a report count takes in.
#[derive(Debug, Clone, Copy)]
pub enum CountRule {
    /// Health is Error or Warning.
    Unhealthy,
    /// Health is Error.
    Failing,
    /// A condition Degraded=True.
    Degraded,
    /// A condition Available=False.
    Unavailable,
    /// No condition Ready=True.
    NotReady,
    /// A pressure condition that is True.
    UnderPressure,
    /// Fewer available than desired replicas, both known.
    UnavailableDeployment,
    /// Fewer ready than desired replicas, both known.
    UnavailableStatefulSet,
    /// Some pods scheduled where they should not run.
    Misscheduled,
    /// Some failed pods.
    FailedJob,
    /// Suspended.
    Suspended,
    /// Some desired replicas and fewer ready ones, both known.
    UnavailableReplicaSet,
    /// The YAML text mentions CrashLoopBackOff.
    CrashLooping,
    /// The YAML text has `phase: Pending`.
    PendingPod,
    /// The YAML text mentions OOMKilled.
    OomKilled,
    /// Known not to be admitted.
    Unadmitted,
    /// No ready address (none known counts as none).
    NoReadyAddress,
    /// Phase Pending.
    PendingClaim,
    /// Phase Available or Released.
    UnboundVolume,
    /// Known not to be attached, with errors.
    FailedAttachment,
    /// Health is Warning.
    Warned,
}

/// Some condition has type `t` and status `s`.
pub open spec fn any_condition(conds: Seq<ConditionView>, t: Seq<char>, s: Seq<char>) -> bool {
    exists|i: int| 0 <= i < conds.len() && #[trigger] conds[i].type_ == t && conds[i].status == s
}

/// A pressure condition (`...Pressure`) with status True.
pub open spec fn pressure_condition(c: ConditionView) -> bool {
    (seq_contains(c.type_, "Pressure"@) || c.type_ == "DiskPressure"@ || c.type_
        == "MemoryPressure"@ || c.type_ == "PIDPressure"@) && c.status == "True"@
}

/// Whether a resource counts under a rule.
pub open spec fn rule_holds(rule: CountRule, r: SnapshotView) -> bool {
    let kf = r.key_fields;
    match rule {
        CountRule::Unhealthy => r.health_status == HealthStatus::Error || r.health_status
            == HealthStatus::Warning,
        CountRule::Failing => r.health_status == HealthStatus::Error,
        CountRule::Degraded => any_condition(r.conditions, "Degraded"@, "True"@),
        CountRule::Unavailable => any_condition(r.conditions, "Available"@, "False"@),
        CountRule::NotReady => !any_condition(r.conditions, "Ready"@, "True"@),
        CountRule::UnderPressure => exists|i: int|
            0 <= i < r.conditions.len() && pressure_condition(#[trigger] r.conditions[i]),
        CountRule::UnavailableDeployment => match (
            field_i64(kf, "replicas"@),
            field_i64(kf, "available_replicas"@),
        ) {
            (Some(want), Some(have)) => have < want,
            _ => false,
        },
        CountRule::UnavailableStatefulSet => match (
            field_i64(kf, "replicas"@),
            field_i64(kf, "ready_replicas"@),
        ) {
            (Some(want), Some(have)) => have < want,
            _ => false,
        },
        CountRule::Misscheduled => match field_i64(kf, "number_misscheduled"@) {
            Some(n) => n > 0,
            None => false,
        },
        CountRule::FailedJob => match field_i64(kf, "failed"@) {
            Some(n) => n > 0,
            None => false,
        },
        CountRule::Suspended => field_bool(kf, "suspend"@) == Some(true),
        CountRule::UnavailableReplicaSet => match (
            field_i64(kf, "replicas"@),
            field_i64(kf, "ready_replicas"@),
        ) {
            (Some(want), Some(have)) => want > 0 && have < want,
            _ => false,
        },
        CountRule::CrashLooping => seq_contains(r.raw, "CrashLoopBackOff"@),
        CountRule::PendingPod => seq_contains(r.raw, "phase: Pending"@),
        CountRule::OomKilled => seq_contains(r.raw, "OOMKilled"@),
        CountRule::Unadmitted => field_bool(kf, "admitted"@) == Some(false),
        CountRule::NoReadyAddress => match field_usize(kf, "ready_addresses"@) {
            Some(n) => n == 0,
            None => true,
        },
        CountRule::PendingClaim => lookup_field(kf, "phase"@) == Some("Pending"@),
        CountRule::UnboundVolume => lookup_field(kf, "phase"@) == Some("Available"@)
            || lookup_field(kf, "phase"@) == Some("Released"@),
        CountRule::FailedAttachment => field_bool(kf, "attached"@) == Some(false) && r.errors.len()
            > 0,
        CountRule::Warned => r.health_status == HealthStatus::Warning,
    }
}

/// A resource whose key fields give the replicas it wants and the replicas
/// available counts as an unavailable deployment exactly when fewer are
/// available than wanted.
pub proof fn lemma_unavailable_deployment_fields(r: SnapshotView, want: i64, have: i64)
    requires
        field_i64(r.key_fields, "replicas"@) == Some(want),
        field_i64(r.key_fields, "available_replicas"@) == Some(have),
    ensures
        rule_holds(CountRule::UnavailableDeployment, r) <==> have < want,
{
}

/// The workload counts over key fields: a stateful set is unavailable
/// exactly when fewer replicas are ready than wanted; a replica set exactly
/// when it wants some and fewer are ready; a daemon set is misscheduled
/// exactly when some pod runs where it should not; a job has failed exactly
/// when some pod failed.
pub proof fn lemma_workload_count_fields(r: SnapshotView, want: i64, ready: i64, n: i64)
    requires
        field_i64(r.key_fields, "replicas"@) == Some(want),
        field_i64(r.key_fields, "ready_replicas"@) == Some(ready),
    ensures
        rule_holds(CountRule::UnavailableStatefulSet, r) <==> ready < want,
        rule_holds(CountRule::UnavailableReplicaSet, r) <==> 0 < want && ready < want,
        field_i64(r.key_fields, "number_misscheduled"@) == Some(n) ==> (rule_holds(
            CountRule::Misscheduled,
            r,
        ) <==> n > 0),
        field_i64(r.key_fields, "failed"@) == Some(n) ==> (rule_holds(CountRule::FailedJob, r)
            <==> n > 0),
{
}

/// The condition, storage and network counts: an operator is degraded
/// exactly when a condition says Degraded=True and unavailable exactly when
/// one says Available=False; a node is not ready exactly when no condition
/// says Ready=True; a claim is pending exactly when its phase is Pending; a
/// volume is unbound exactly when its phase is Available or Released; a
/// route is unadmitted exactly when its `admitted` field is false.
pub proof fn lemma_status_counts(r: SnapshotView)
    ensures
        rule_holds(CountRule::Degraded, r) <==> exists|i: int|
            0 <= i < r.conditions.len() && #[trigger] r.conditions[i].type_ == "Degraded"@
                && r.conditions[i].status == "True"@,
        rule_holds(CountRule::Unavailable, r) <==> exists|i: int|
            0 <= i < r.conditions.len() && #[trigger] r.conditions[i].type_ == "Available"@
                && r.conditions[i].status == "False"@,
        rule_holds(CountRule::NotReady, r) <==> forall|i: int|
            0 <= i < r.conditions.len() && #[trigger] r.conditions[i].type_ == "Ready"@
                ==> r.conditions[i].status != "True"@,
        rule_holds(CountRule::PendingClaim, r) <==> lookup_field(r.key_fields, "phase"@) == Some(
            "Pending"@,
        ),
        rule_holds(CountRule::UnboundVolume, r) <==> lookup_field(r.key_fields, "phase"@) == Some(
            "Available"@,
        ) || lookup_field(r.key_fields, "phase"@) == Some("Released"@),
        rule_holds(CountRule::Unadmitted, r) <==> field_bool(r.key_fields, "admitted"@) == Some(
            false,
        ),
{
}

/// A deployment read from its manifest counts as unavailable exactly when
/// its available replicas (`status.availableReplicas`, 0 when absent) are
/// fewer than its replicas (`spec.replicas`, 1 when absent).
pub proof fn lemma_unavailable_deployment(m: ManifestView)
    ensures
        rule_holds(CountRule::UnavailableDeployment, deployment_view(m)) <==> int_or(
            m,
            "status"@,
            "availableReplicas"@,
            0,
        ) < int_or(m, "spec"@, "replicas"@, 1),
{
    reveal_strlit("replicas");
    reveal_strlit("ready_replicas");
    reveal_strlit("available_replicas");
    reveal_strlit("unavailable_replicas");
    assert("replicas"@.len() == 8 && "ready_replicas"@.len() == 14
        && "available_replicas"@.len() == 18);
    let want = int_or(m, "spec"@, "replicas"@, 1);
    let have = int_or(m, "status"@, "availableReplicas"@, 0);
    let kf = deployment_view(m).key_fields;
    lemma_parse_decimal(want);
    lemma_parse_decimal(have);
    reveal_with_fuel(lookup_field, 4);
    assert(kf.drop_first().drop_first()[0].0 == "available_replicas"@);
    assert(lookup_field(kf, "replicas"@) == Some(decimal(want as int)));
    assert(lookup_field(kf, "available_replicas"@) == Some(decimal(have as int)));
    lemma_unavailable_deployment_fields(deployment_view(m), want, have);
}

/// How many resources of the list count under the rule.
pub open spec fn count_of(items: Seq<SnapshotView>, rule: CountRule) -> nat {
    items.filter(|r: SnapshotView| rule_holds(rule, r)).len()
}

/// Some condition of the list has type `t` and status `s`.
fn has_condition_of(conds: &Vec<Condition>, t: &str, s: &str) -> (r: bool)
    ensures
        r == any_condition(conds.deep_view(), t@, s@),
{
    let mut i: usize = 0;
    while i < conds.len()
        invariant
            i <= conds.len(),
            forall|j: int|
                0 <= j < i ==> !(conds.deep_view()[j].type_ == t@ && conds.deep_view()[j].status
                    == s@),
        decreases conds.len() - i,
    {
        assert(conds.deep_view()[i as int] == conds@[i as int]@);
        if str_eq(conds[i].type_.as_str(), t) && str_eq(conds[i].status.as_str(), s) {
            assert(conds.deep_view()[i as int].type_ == t@);
            return true;
        }
        i = i + 1;
    }
    false
}

/// Some condition of the list is a pressure condition that is True.
fn has_pressure_condition(conds: &Vec<Condition>) -> (r: bool)
    ensures
        r == exists|i: int|
            0 <= i < conds.deep_view().len() && pressure_condition(#[trigger] conds.deep_view()[i]),
{
    let mut i: usize = 0;
    while i < conds.len()
        invariant
            i <= conds.len(),
            forall|j: int| 0 <= j < i ==> !pressure_condition(#[trigger] conds.deep_view()[j]),
        decreases conds.len() - i,
    {
        let c = &conds[i];
        assert(conds.deep_view()[i as int] == c@);
        let t = c.type_.as_str();
        if (str_contains(t, "Pressure") || str_eq(t, "DiskPressure") || str_eq(t, "MemoryPressure")
            || str_eq(t, "PIDPressure")) && str_eq(c.status.as_str(), "True") {
            return true;
        }
        i = i + 1;
    }
    false
}

/// Whether a resource counts under a rule.
pub fn rule_applies(rule: CountRule, r: &ResourceSnapshot) -> (b: bool)
    ensures
        b == rule_holds(rule, r@),
{
    let kf = &r.key_fields;
    match rule {
        CountRule::Unhealthy => match r.health_status {
            HealthStatus::Error | HealthStatus::Warning => true,
            _ => false,
        },
        CountRule::Failing => match r.health_status {
            HealthStatus::Error => true,
            _ => false,
        },
        CountRule::Degraded => has_condition_of(&r.conditions, "Degraded", "True"),
        CountRule::Unavailable => has_condition_of(&r.conditions, "Available", "False"),
        CountRule::NotReady => !has_condition_of(&r.conditions, "Ready", "True"),
        CountRule::UnderPressure => {
            let x = has_pressure_condition(&r.conditions);
            proof {
                if x {
                    let i = choose|i: int|
                        0 <= i < r.conditions.deep_view().len() && pressure_condition(
                            #[trigger] r.conditions.deep_view()[i],
                        );
                    assert(pressure_condition(r@.conditions[i]));
                }
            }
            x
        },
        CountRule::UnavailableDeployment => match (
            get_field_i64(kf, "replicas"),
            get_field_i64(kf, "available_replicas"),
        ) {
            (Some(want), Some(have)) => have < want,
            _ => false,
        },
        CountRule::UnavailableStatefulSet => match (
            get_field_i64(kf, "replicas"),
            get_field_i64(kf, "ready_replicas"),
        ) {
            (Some(want), Some(have)) => have < want,
            _ => false,
        },
        CountRule::Misscheduled => match get_field_i64(kf, "number_misscheduled") {
            Some(n) => n > 0,
            None => false,
        },
        CountRule::FailedJob => match get_field_i64(kf, "failed") {
            Some(n) => n > 0,
            None => false,
        },
        CountRule::Suspended => match get_field_bool(kf, "suspend") {
            Some(b) => b,
            None => false,
        },
        CountRule::UnavailableReplicaSet => match (
            get_field_i64(kf, "replicas"),
            get_field_i64(kf, "ready_replicas"),
        ) {
            (Some(want), Some(have)) => want > 0 && have < want,
            _ => false,
        },
        CountRule::CrashLooping => str_contains(r.raw.as_str(), "CrashLoopBackOff"),
        CountRule::PendingPod => str_contains(r.raw.as_str(), "phase: Pending"),
        CountRule::OomKilled => str_contains(r.raw.as_str(), "OOMKilled"),
        CountRule::Unadmitted => match get_field_bool(kf, "admitted") {
            Some(b) => !b,
            None => false,
        },
        CountRule::NoReadyAddress => match get_field_usize(kf, "ready_addresses") {
            Some(n) => n == 0,
            None => true,
        },
        CountRule::PendingClaim => match get_field(kf, "phase") {
            Some(p) => str_eq(p.as_str(), "Pending"),
            None => false,
        },
        CountRule::UnboundVolume => match get_field(kf, "phase") {
            Some(p) => str_eq(p.as_str(), "Available") || str_eq(p.as_str(), "Released"),
            None => false,
        },
        CountRule::FailedAttachment => match get_field_bool(kf, "attached") {
            Some(b) => !b && r.errors.len() > 0,
            None => false,
        },
        CountRule::Warned => match r.health_status {
            HealthStatus::Warning => true,
            _ => false,
        },
    }
}

/// How many resources of the list count under the rule.
pub fn count_matching(items: &Vec<ResourceSnapshot>, rule: CountRule) -> (n: usize)
    ensures
        n == count_of(items.deep_view(), rule),
        n <= items.len(),
{
    let ghost f = |r: SnapshotView| rule_holds(rule, r);
    let ghost all = items.deep_view();
    let mut n: usize = 0;
    let mut i: usize = 0;
    assert(all.take(0) =~= Seq::<SnapshotView>::empty());
    proof {
        reveal(Seq::filter);
    }
    while i < items.len()
        invariant
            i <= items.len(),
            all == items.deep_view(),
            n == all.take(i as int).filter(f).len(),
            n <= i,
        decreases items.len() - i,
    {
        assert(all.take(i + 1).drop_last() =~= all.take(i as int));
        assert(all.take(i + 1).last() == all[i as int]);
        assert(all[i as int] == items@[i as int]@);
        reveal(Seq::filter);
        if rule_applies(rule, &items[i]) {
            n = n + 1;
        }
        i = i + 1;
    }
    assert(all.take(items.len() as int) =~= all);
    n
}

// ---------------------------------------------------------------------------
// The triage sections of the report
// ---------------------------------------------------------------------------
/// Dashboard data for overview section
#[derive(Debug)]
pub struct DashboardData {
    pub total_nodes: usize,
    pub healthy_nodes: usize,
    pub total_pods: usize,
    pub healthy_pods: usize,
    pub total_operators: usize,
    pub degraded_operators: usize,
    pub cluster_version: Option<String>,
    pub platform_type: Option<String>,
    pub collection_timestamp: Option<String>,
}

/// Cluster health data
#[derive(Debug)]
pub struct ClusterHealthData {
    pub operators: Vec<ResourceData>,
    pub installed_operators: ResourceCollection,
    pub degraded_count: usize,
    pub unavailable_count: usize,
}

/// Resource collection with issue counts, the counts as named entries.
#[derive(Debug)]
pub struct ResourceCollection {
    pub items: Vec<ResourceData>,
    pub counts: Vec<(String, usize)>,
}

/// Workloads data structure
#[derive(Debug)]
pub struct WorkloadsData {
    pub pods: ResourceCollection,
    pub deployments: ResourceCollection,
    pub statefulsets: ResourceCollection,
    pub configmaps: ResourceCollection,
    pub secrets: ResourceCollection,
    pub daemonsets: ResourceCollection,
    pub jobs: ResourceCollection,
    pub cronjobs: ResourceCollection,
    pub replicasets: ResourceCollection,
}

/// Networking data structure
#[derive(Debug)]
pub struct NetworkingData {
    pub routes: ResourceCollection,
    pub services: ResourceCollection,
    pub endpoints: ResourceCollection,
    pub network_policies: ResourceCollection,
    pub ingress_controllers: ResourceCollection,
}

/// Storage data structure
#[derive(Debug)]
pub struct StorageData {
    pub pvcs: ResourceCollection,
    pub pvs: ResourceCollection,
    pub storage_classes: ResourceCollection,
    pub volume_attachments: ResourceCollection,
}

/// Compute data structure
#[derive(Debug)]
pub struct ComputeData {
    pub machines: ResourceCollection,
    pub machine_health_checks: ResourceCollection,
    pub machine_autoscalers: ResourceCollection,
    pub control_plane_machine_sets: ResourceCollection,
    pub machine_sets: ResourceCollection,
    pub machine_configs: ResourceCollection,
    pub machine_config_pools: ResourceCollection,
    pub machine_configurations: ResourceCollection,
}

/// Security data structure
#[derive(Debug)]
pub struct SecurityData {
    pub cluster_roles: ResourceCollection,
    pub cluster_role_bindings: ResourceCollection,
    pub security_context_constraints: ResourceCollection,
}

/// Administration data structure
#[derive(Debug)]
pub struct AdministrationData {
    pub cluster_settings: ResourceCollection,
    pub namespaces: ResourceCollection,
    pub resource_quotas: ResourceCollection,
    pub limit_ranges: ResourceCollection,
    pub custom_resource_definitions: ResourceCollection,
    pub dynamic_plugins: ResourceCollection,
}

/// OpenShift Virtualization resources
#[derive(Debug)]
pub struct VirtualizationData {
    pub hyperconvergeds: ResourceCollection,
    pub kubevirts: ResourceCollection,
    pub virtual_machines: ResourceCollection,
    pub virtual_machine_instances: ResourceCollection,
    pub virtual_machine_pools: ResourceCollection,
    pub virtual_machine_exports: ResourceCollection,
    pub virtual_machine_clones: ResourceCollection,
    pub virtual_machine_snapshots: ResourceCollection,
    pub virtual_machine_snapshot_contents: ResourceCollection,
    pub virtual_machine_restores: ResourceCollection,
    pub data_volumes: ResourceCollection,
    pub data_sources: ResourceCollection,
    pub data_import_crons: ResourceCollection,
    pub instance_types: ResourceCollection,
    pub preferences: ResourceCollection,
}

/// Platform detection and platform-specific resource data
#[derive(Debug)]
pub struct PlatformData {
    pub fusion_detected: bool,
    pub odf_detected: bool,
    pub service_mesh_detected: bool,
    pub acm_detected: bool,
    pub virtualization_detected: bool,
    pub cpd_detected: bool,
    pub virtualization: VirtualizationData,
}

/// Overview section
#[derive(Debug)]
pub struct OverviewSection {
    pub dashboard: DashboardData,
    pub cluster_health: ClusterHealthData,
}

/// Core section
#[derive(Debug)]
pub struct CoreSection {
    pub nodes: ResourceCollection,
    pub workloads: WorkloadsData,
    pub namespaces: ResourceCollection,
    pub events: ResourceCollection,
}

/// Infrastructure section
#[derive(Debug)]
pub struct InfrastructureSection {
    pub networking: NetworkingData,
    pub storage: StorageData,
}

/// Complete triage-based must-gather data
#[derive(Debug)]
pub struct TriageMustGatherData {
    pub overview: OverviewSection,
    pub core: CoreSection,
    pub compute: ComputeData,
    pub security: SecurityData,
    pub administration: AdministrationData,
    pub infrastructure: InfrastructureSection,
    pub platform: PlatformData,
}

/// The report's entries for a list of resources, analysed by the default
/// analyzers.
pub open spec fn serialized(items: Seq<SnapshotView>, summary_only: bool) -> Seq<ResourceDataView> {
    items.map_values(|r: SnapshotView| resource_data(r, default_analyzers(), summary_only))
}

/// The summary lists the same resources as the full report, in the same
/// order: entry by entry the two agree on the uid, name, kind, namespace,
/// status, errors, warnings and relationships, and the summary carries no
/// YAML text, logs or health analysis.
pub proof fn lemma_summary_lists_what_full_lists(items: Seq<SnapshotView>)
    ensures
        serialized(items, true).len() == items.len(),
        serialized(items, false).len() == items.len(),
        forall|i: int|
            0 <= i < items.len() ==> {
                let s = #[trigger] serialized(items, true)[i];
                let f = serialized(items, false)[i];
                &&& s.uid == f.uid
                &&& s.name == f.name
                &&& s.kind == f.kind
                &&& s.namespace == f.namespace
                &&& s.status == f.status
                &&& s.errors == f.errors
                &&& s.warnings == f.warnings
                &&& s.relationships == f.relationships
                &&& s.raw.len() == 0
                &&& s.logs.len() == 0
                &&& s.health_analysis is None
                &&& f.health_analysis is Some
            },
{
    assert forall|i: int| 0 <= i < items.len() implies {
        let s = #[trigger] serialized(items, true)[i];
        let f = serialized(items, false)[i];
        &&& s.uid == f.uid
        &&& s.name == f.name
        &&& s.kind == f.kind
        &&& s.namespace == f.namespace
        &&& s.status == f.status
        &&& s.errors == f.errors
        &&& s.warnings == f.warnings
        &&& s.relationships == f.relationships
        &&& s.raw.len() == 0
        &&& s.logs.len() == 0
        &&& s.health_analysis is None
        &&& f.health_analysis is Some
    } by {
        assert(serialized(items, true)[i] == resource_data(items[i], default_analyzers(), true));
        assert(serialized(items, false)[i] == resource_data(items[i], default_analyzers(), false));
    }
}

/// A collection holds the entries of `items` and the given counts.
#[verifier::opaque]
pub open spec fn collection_is(
    c: ResourceCollection,
    items: Seq<SnapshotView>,
    summary_only: bool,
    counts: Seq<(Seq<char>, usize)>,
) -> bool {
    c.items.deep_view() == serialized(items, summary_only) && c.counts.deep_view() == counts
}

/// `a - b`, or 0 when `b` is larger.
pub open spec fn saturating_sub(a: nat, b: nat) -> nat {
    if a >= b {
        (a - b) as nat
    } else {
        0
    }
}

/// A count as a report entry.
pub open spec fn count_entry(items: Seq<SnapshotView>, name: Seq<char>, rule: CountRule) -> (
    Seq<char>,
    usize,
) {
    (name, count_of(items, rule) as usize)
}

/// The count of resources that are unhealthy but not failing.
pub open spec fn warning_only_count(items: Seq<SnapshotView>) -> usize {
    saturating_sub(count_of(items, CountRule::Unhealthy), count_of(items, CountRule::Failing))
        as usize
}

/// A collection of the report's entries for `items` with the given counts.
fn collection(
    items: &Vec<ResourceSnapshot>,
    registry: &AnalyzerRegistry,
    summary_only: bool,
    counts: Vec<(String, usize)>,
) -> (c: ResourceCollection)
    requires
        registry.analyzers@ == default_analyzers(),
    ensures
        collection_is(c, items.deep_view(), summary_only, counts.deep_view()),
{
    let items = serialize_resources(items, registry, summary_only);
    let c = ResourceCollection { items, counts };
    proof {
        reveal(collection_is);
    }
    c
}

/// No counts.
fn no_counts() -> (r: Vec<(String, usize)>)
    ensures
        r.deep_view() == Seq::<(Seq<char>, usize)>::empty(),
{
    let r: Vec<(String, usize)> = Vec::new();
    assert(r.deep_view() =~= Seq::<(Seq<char>, usize)>::empty());
    r
}

/// One count.
fn counts1(a: &str, x: usize) -> (r: Vec<(String, usize)>)
    ensures
        r.deep_view() == seq![(a@, x)],
{
    let mut r: Vec<(String, usize)> = Vec::new();
    r.push((String::from_str(a), x));
    assert(r.deep_view() =~= seq![(a@, x)]);
    r
}

/// Two counts, in order.
fn counts2(a: &str, x: usize, b: &str, y: usize) -> (r: Vec<(String, usize)>)
    ensures
        r.deep_view() == seq![(a@, x), (b@, y)],
{
    let mut r: Vec<(String, usize)> = Vec::new();
    r.push((String::from_str(a), x));
    r.push((String::from_str(b), y));
    assert(r.deep_view() =~= seq![(a@, x), (b@, y)]);
    r
}

/// Three counts, in order.
fn counts3(a: &str, x: usize, b: &str, y: usize, c: &str, z: usize) -> (r: Vec<(String, usize)>)
    ensures
        r.deep_view() == seq![(a@, x), (b@, y), (c@, z)],
{
    let mut r: Vec<(String, usize)> = Vec::new();
    r.push((String::from_str(a), x));
    r.push((String::from_str(b), y));
    r.push((String::from_str(c), z));
    assert(r.deep_view() =~= seq![(a@, x), (b@, y), (c@, z)]);
    r
}

/// The count of unhealthy but not failing resources.
fn warning_only(items: &Vec<ResourceSnapshot>) -> (n: usize)
    ensures
        n == warning_only_count(items.deep_view()),
{
    let errors = count_matching(items, CountRule::Failing);
    let unhealthy = count_matching(items, CountRule::Unhealthy);
    if unhealthy >= errors {
        unhealthy - errors
    } else {
        0
    }
}

/// The workloads part of the report.
#[verifier::spinoff_prover]
fn workloads_section(mg: &MustGather, registry: &AnalyzerRegistry, summary_only: bool) -> (r: WorkloadsData)
    requires
        registry.analyzers@ == default_analyzers(),
    ensures
            collection_is(r.pods, mg.pods.deep_view(), summary_only, seq![count_entry(mg.pods.deep_view(), "crashloop_count"@, CountRule::CrashLooping), count_entry(mg.pods.deep_view(), "pending_count"@, CountRule::PendingPod), count_entry(mg.pods.deep_view(), "oomkilled_count"@, CountRule::OomKilled)]),
            collection_is(r.deployments, mg.deployments.deep_view(), summary_only, seq![count_entry(mg.deployments.deep_view(), "unavailable_count"@, CountRule::UnavailableDeployment)]),
            collection_is(r.statefulsets, mg.statefulsets.deep_view(), summary_only, seq![count_entry(mg.statefulsets.deep_view(), "unavailable_count"@, CountRule::UnavailableStatefulSet)]),
            collection_is(r.configmaps, mg.configmaps.deep_view(), summary_only, Seq::empty()),
            collection_is(r.secrets, mg.secrets.deep_view(), summary_only, Seq::empty()),
            collection_is(r.daemonsets, mg.daemonsets.deep_view(), summary_only, seq![count_entry(mg.daemonsets.deep_view(), "misscheduled_count"@, CountRule::Misscheduled)]),
            collection_is(r.jobs, mg.jobs.deep_view(), summary_only, seq![count_entry(mg.jobs.deep_view(), "failed_count"@, CountRule::FailedJob)]),
            collection_is(r.cronjobs, mg.cronjobs.deep_view(), summary_only, seq![count_entry(mg.cronjobs.deep_view(), "suspended_count"@, CountRule::Suspended)]),
            collection_is(r.replicasets, mg.replicasets.deep_view(), summary_only, seq![count_entry(mg.replicasets.deep_view(), "unavailable_count"@, CountRule::UnavailableReplicaSet)]),
{
    WorkloadsData {
        pods: collection(&mg.pods, &registry, summary_only, counts3("crashloop_count", count_matching(&mg.pods, CountRule::CrashLooping), "pending_count", count_matching(&mg.pods, CountRule::PendingPod), "oomkilled_count", count_matching(&mg.pods, CountRule::OomKilled))),
        deployments: collection(&mg.deployments, &registry, summary_only, counts1("unavailable_count", count_matching(&mg.deployments, CountRule::UnavailableDeployment))),
        statefulsets: collection(&mg.statefulsets, &registry, summary_only, counts1("unavailable_count", count_matching(&mg.statefulsets, CountRule::UnavailableStatefulSet))),
        configmaps: collection(&mg.configmaps, &registry, summary_only, no_counts()),
        secrets: collection(&mg.secrets, &registry, summary_only, no_counts()),
        daemonsets: collection(&mg.daemonsets, &registry, summary_only, counts1("misscheduled_count", count_matching(&mg.daemonsets, CountRule::Misscheduled))),
        jobs: collection(&mg.jobs, &registry, summary_only, counts1("failed_count", count_matching(&mg.jobs, CountRule::FailedJob))),
        cronjobs: collection(&mg.cronjobs, &registry, summary_only, counts1("suspended_count", count_matching(&mg.cronjobs, CountRule::Suspended))),
        replicasets: collection(&mg.replicasets, &registry, summary_only, counts1("unavailable_count", count_matching(&mg.replicasets, CountRule::UnavailableReplicaSet))),
    }
}

/// The compute part of the report.
#[verifier::spinoff_prover]
fn compute_section(mg: &MustGather, registry: &AnalyzerRegistry, summary_only: bool) -> (r: ComputeData)
    requires
        registry.analyzers@ == default_analyzers(),
    ensures
            collection_is(r.machines, mg.machines.deep_view(), summary_only, seq![count_entry(mg.machines.deep_view(), "not_running_count"@, CountRule::Failing)]),
            collection_is(r.machine_health_checks, mg.machinehealthchecks.deep_view(), summary_only, seq![count_entry(mg.machinehealthchecks.deep_view(), "unhealthy_count"@, CountRule::Failing)]),
            collection_is(r.machine_autoscalers, mg.machineautoscalers.deep_view(), summary_only, Seq::empty()),
            collection_is(r.control_plane_machine_sets, mg.controlplanemachinesets.deep_view(), summary_only, Seq::empty()),
            collection_is(r.machine_sets, mg.machinesets.deep_view(), summary_only, Seq::empty()),
            collection_is(r.machine_configs, mg.machineconfigs.deep_view(), summary_only, Seq::empty()),
            collection_is(r.machine_config_pools, mg.machineconfigpools.deep_view(), summary_only, seq![count_entry(mg.machineconfigpools.deep_view(), "degraded_count"@, CountRule::Failing), ("updating_count"@, warning_only_count(mg.machineconfigpools.deep_view()))]),
            collection_is(r.machine_configurations, mg.machineconfigurations.deep_view(), summary_only, seq![count_entry(mg.machineconfigurations.deep_view(), "degraded_count"@, CountRule::Failing), ("progressing_count"@, warning_only_count(mg.machineconfigurations.deep_view()))]),
{
    ComputeData {
        machines: collection(&mg.machines, &registry, summary_only, counts1("not_running_count", count_matching(&mg.machines, CountRule::Failing))),
        machine_health_checks: collection(&mg.machinehealthchecks, &registry, summary_only, counts1("unhealthy_count", count_matching(&mg.machinehealthchecks, CountRule::Failing))),
        machine_autoscalers: collection(&mg.machineautoscalers, &registry, summary_only, no_counts()),
        control_plane_machine_sets: collection(&mg.controlplanemachinesets, &registry, summary_only, no_counts()),
        machine_sets: collection(&mg.machinesets, &registry, summary_only, no_counts()),
        machine_configs: collection(&mg.machineconfigs, &registry, summary_only, no_counts()),
        machine_config_pools: collection(&mg.machineconfigpools, &registry, summary_only, counts2("degraded_count", count_matching(&mg.machineconfigpools, CountRule::Failing), "updating_count", warning_only(&mg.machineconfigpools))),
        machine_configurations: collection(&mg.machineconfigurations, &registry, summary_only, counts2("degraded_count", count_matching(&mg.machineconfigurations, CountRule::Failing), "progressing_count", warning_only(&mg.machineconfigurations))),
    }
}

/// The networking part of the report.
#[verifier::spinoff_prover]
fn networking_section(mg: &MustGather, registry: &AnalyzerRegistry, summary_only: bool) -> (r: NetworkingData)
    requires
        registry.analyzers@ == default_analyzers(),
    ensures
            collection_is(r.routes, mg.routes.deep_view(), summary_only, seq![count_entry(mg.routes.deep_view(), "unadmitted_count"@, CountRule::Unadmitted)]),
            collection_is(r.services, mg.services.deep_view(), summary_only, seq![("no_endpoints_count"@, 0usize)]),
            collection_is(r.endpoints, mg.endpoints.deep_view(), summary_only, seq![count_entry(mg.endpoints.deep_view(), "not_ready_count"@, CountRule::NoReadyAddress)]),
            collection_is(r.network_policies, mg.networkpolicies.deep_view(), summary_only, seq![count_entry(mg.networkpolicies.deep_view(), "warning_count"@, CountRule::Unhealthy)]),
            collection_is(r.ingress_controllers, mg.ingress_controllers.deep_view(), summary_only, seq![count_entry(mg.ingress_controllers.deep_view(), "degraded_count"@, CountRule::Degraded)]),
{
    NetworkingData {
        routes: collection(&mg.routes, &registry, summary_only, counts1("unadmitted_count", count_matching(&mg.routes, CountRule::Unadmitted))),
        services: collection(&mg.services, &registry, summary_only, counts1("no_endpoints_count", 0)),
        endpoints: collection(&mg.endpoints, &registry, summary_only, counts1("not_ready_count", count_matching(&mg.endpoints, CountRule::NoReadyAddress))),
        network_policies: collection(&mg.networkpolicies, &registry, summary_only, counts1("warning_count", count_matching(&mg.networkpolicies, CountRule::Unhealthy))),
        ingress_controllers: collection(&mg.ingress_controllers, &registry, summary_only, counts1("degraded_count", count_matching(&mg.ingress_controllers, CountRule::Degraded))),
    }
}

/// The security part of the report.
#[verifier::spinoff_prover]
fn security_section(mg: &MustGather, registry: &AnalyzerRegistry, summary_only: bool) -> (r: SecurityData)
    requires
        registry.analyzers@ == default_analyzers(),
    ensures
            collection_is(r.cluster_roles, mg.clusterroles.deep_view(), summary_only, Seq::empty()),
            collection_is(r.cluster_role_bindings, mg.clusterrolebindings.deep_view(), summary_only, Seq::empty()),
            collection_is(r.security_context_constraints, mg.securitycontextconstraints.deep_view(), summary_only, seq![count_entry(mg.securitycontextconstraints.deep_view(), "warning_count"@, CountRule::Unhealthy)]),
{
    SecurityData {
        cluster_roles: collection(&mg.clusterroles, &registry, summary_only, no_counts()),
        cluster_role_bindings: collection(&mg.clusterrolebindings, &registry, summary_only, no_counts()),
        security_context_constraints: collection(&mg.securitycontextconstraints, &registry, summary_only, counts1("warning_count", count_matching(&mg.securitycontextconstraints, CountRule::Unhealthy))),
    }
}

/// The administration part of the report.
#[verifier::spinoff_prover]
fn administration_section(mg: &MustGather, registry: &AnalyzerRegistry, summary_only: bool) -> (r: AdministrationData)
    requires
        registry.analyzers@ == default_analyzers(),
    ensures
            collection_is(r.cluster_settings, mg.cluster_settings.deep_view(), summary_only, Seq::empty()),
            collection_is(r.namespaces, mg.namespaces.deep_view(), summary_only, Seq::empty()),
            collection_is(r.resource_quotas, mg.resourcequotas.deep_view(), summary_only, Seq::empty()),
            collection_is(r.limit_ranges, mg.limitranges.deep_view(), summary_only, Seq::empty()),
            collection_is(r.custom_resource_definitions, mg.customresourcedefinitions.deep_view(), summary_only, Seq::empty()),
            collection_is(r.dynamic_plugins, mg.dynamicplugins.deep_view(), summary_only, Seq::empty()),
{
    AdministrationData {
        cluster_settings: collection(&mg.cluster_settings, &registry, summary_only, no_counts()),
        namespaces: collection(&mg.namespaces, &registry, summary_only, no_counts()),
        resource_quotas: collection(&mg.resourcequotas, &registry, summary_only, no_counts()),
        limit_ranges: collection(&mg.limitranges, &registry, summary_only, no_counts()),
        custom_resource_definitions: collection(&mg.customresourcedefinitions, &registry, summary_only, no_counts()),
        dynamic_plugins: collection(&mg.dynamicplugins, &registry, summary_only, no_counts()),
    }
}

/// The storage part of the report.
#[verifier::spinoff_prover]
fn storage_section(mg: &MustGather, registry: &AnalyzerRegistry, summary_only: bool) -> (r: StorageData)
    requires
        registry.analyzers@ == default_analyzers(),
    ensures
            collection_is(r.pvcs, mg.pvcs.deep_view(), summary_only, seq![count_entry(mg.pvcs.deep_view(), "pending_count"@, CountRule::PendingClaim)]),
            collection_is(r.pvs, mg.pvs.deep_view(), summary_only, seq![count_entry(mg.pvs.deep_view(), "unbound_count"@, CountRule::UnboundVolume)]),
            collection_is(r.storage_classes, mg.storage_classes.deep_view(), summary_only, Seq::empty()),
            collection_is(r.volume_attachments, mg.volume_attachments.deep_view(), summary_only, seq![count_entry(mg.volume_attachments.deep_view(), "failed_count"@, CountRule::FailedAttachment)]),
{
    StorageData {
        pvcs: collection(&mg.pvcs, &registry, summary_only, counts1("pending_count", count_matching(&mg.pvcs, CountRule::PendingClaim))),
        pvs: collection(&mg.pvs, &registry, summary_only, counts1("unbound_count", count_matching(&mg.pvs, CountRule::UnboundVolume))),
        storage_classes: collection(&mg.storage_classes, &registry, summary_only, no_counts()),
        volume_attachments: collection(&mg.volume_attachments, &registry, summary_only, counts1("failed_count", count_matching(&mg.volume_attachments, CountRule::FailedAttachment))),
    }
}

/// The virtualization part of the report.
#[verifier::spinoff_prover]
fn virtualization_section(mg: &MustGather, registry: &AnalyzerRegistry, summary_only: bool) -> (r: VirtualizationData)
    requires
        registry.analyzers@ == default_analyzers(),
    ensures
            collection_is(r.hyperconvergeds, mg.virtualization.hyperconvergeds.deep_view(), summary_only, Seq::empty()),
            collection_is(r.kubevirts, mg.virtualization.kubevirts.deep_view(), summary_only, Seq::empty()),
            collection_is(r.virtual_machines, mg.virtualization.virtual_machines.deep_view(), summary_only, Seq::empty()),
            collection_is(r.virtual_machine_instances, mg.virtualization.virtual_machine_instances.deep_view(), summary_only, Seq::empty()),
            collection_is(r.virtual_machine_pools, mg.virtualization.virtual_machine_pools.deep_view(), summary_only, Seq::empty()),
            collection_is(r.virtual_machine_exports, mg.virtualization.virtual_machine_exports.deep_view(), summary_only, Seq::empty()),
            collection_is(r.virtual_machine_clones, mg.virtualization.virtual_machine_clones.deep_view(), summary_only, Seq::empty()),
            collection_is(r.virtual_machine_snapshots, mg.virtualization.virtual_machine_snapshots.deep_view(), summary_only, Seq::empty()),
            collection_is(r.virtual_machine_snapshot_contents, mg.virtualization.virtual_machine_snapshot_contents.deep_view(), summary_only, Seq::empty()),
            collection_is(r.virtual_machine_restores, mg.virtualization.virtual_machine_restores.deep_view(), summary_only, Seq::empty()),
            collection_is(r.data_volumes, mg.virtualization.data_volumes.deep_view(), summary_only, Seq::empty()),
            collection_is(r.data_sources, mg.virtualization.data_sources.deep_view(), summary_only, Seq::empty()),
            collection_is(r.data_import_crons, mg.virtualization.data_import_crons.deep_view(), summary_only, Seq::empty()),
            collection_is(r.instance_types, mg.virtualization.instance_types.deep_view(), summary_only, Seq::empty()),
            collection_is(r.preferences, mg.virtualization.preferences.deep_view(), summary_only, Seq::empty()),
{
    VirtualizationData {
        hyperconvergeds: collection(&mg.virtualization.hyperconvergeds, &registry, summary_only, no_counts()),
        kubevirts: collection(&mg.virtualization.kubevirts, &registry, summary_only, no_counts()),
        virtual_machines: collection(&mg.virtualization.virtual_machines, &registry, summary_only, no_counts()),
        virtual_machine_instances: collection(&mg.virtualization.virtual_machine_instances, &registry, summary_only, no_counts()),
        virtual_machine_pools: collection(&mg.virtualization.virtual_machine_pools, &registry, summary_only, no_counts()),
        virtual_machine_exports: collection(&mg.virtualization.virtual_machine_exports, &registry, summary_only, no_counts()),
        virtual_machine_clones: collection(&mg.virtualization.virtual_machine_clones, &registry, summary_only, no_counts()),
        virtual_machine_snapshots: collection(&mg.virtualization.virtual_machine_snapshots, &registry, summary_only, no_counts()),
        virtual_machine_snapshot_contents: collection(&mg.virtualization.virtual_machine_snapshot_contents, &registry, summary_only, no_counts()),
        virtual_machine_restores: collection(&mg.virtualization.virtual_machine_restores, &registry, summary_only, no_counts()),
        data_volumes: collection(&mg.virtualization.data_volumes, &registry, summary_only, no_counts()),
        data_sources: collection(&mg.virtualization.data_sources, &registry, summary_only, no_counts()),
        data_import_crons: collection(&mg.virtualization.data_import_crons, &registry, summary_only, no_counts()),
        instance_types: collection(&mg.virtualization.instance_types, &registry, summary_only, no_counts()),
        preferences: collection(&mg.virtualization.preferences, &registry, summary_only, no_counts()),
    }
}

/// The report's data for a must-gather, in full or as a summary.
/// The report data `r` is what the must-gather `mg` gives, in full or as a
/// summary: each collection holds the entries of its resources with its
/// counts, and the dashboard and platform flags are read off `mg`.
pub open spec fn report_of(r: TriageMustGatherData, mg: MustGather, summary_only: bool) -> bool {
    &&& r.overview.dashboard.total_nodes == mg.nodes.len()
    &&& r.overview.dashboard.healthy_nodes == mg.nodes.len() - count_of(mg.nodes.deep_view(), CountRule::Unhealthy)
    &&& r.overview.dashboard.total_pods == mg.pods.len()
    &&& r.overview.dashboard.healthy_pods == mg.pods.len() - count_of(mg.pods.deep_view(), CountRule::Unhealthy)
    &&& r.overview.dashboard.total_operators == mg.clusteroperators.len()
    &&& r.overview.dashboard.degraded_operators == count_of(mg.clusteroperators.deep_view(), CountRule::Degraded)
    &&& r.overview.dashboard.cluster_version.deep_view() == (if mg.version@ != "Unknown"@ { Some(mg.version@) } else { None })
    &&& r.overview.dashboard.platform_type.deep_view() == (if mg.platformtype@ != "Unknown"@ { Some(mg.platformtype@) } else { None })
    &&& r.overview.dashboard.collection_timestamp.deep_view() == mg.collection_timestamp.deep_view()
    &&& r.overview.cluster_health.operators.deep_view() == serialized(mg.clusteroperators.deep_view(), summary_only)
    &&& r.overview.cluster_health.degraded_count == count_of(mg.clusteroperators.deep_view(), CountRule::Degraded)
    &&& r.overview.cluster_health.unavailable_count == count_of(mg.clusteroperators.deep_view(), CountRule::Unavailable)
    &&& collection_is(r.overview.cluster_health.installed_operators, mg.operators.deep_view(), summary_only, seq![count_entry(mg.operators.deep_view(), "error_count"@, CountRule::Failing), ("warning_count"@, warning_only_count(mg.operators.deep_view()))])
    &&& collection_is(r.core.nodes, mg.nodes.deep_view(), summary_only, seq![count_entry(mg.nodes.deep_view(), "not_ready_count"@, CountRule::NotReady), count_entry(mg.nodes.deep_view(), "pressure_count"@, CountRule::UnderPressure)])
    &&& collection_is(r.core.workloads.pods, mg.pods.deep_view(), summary_only, seq![count_entry(mg.pods.deep_view(), "crashloop_count"@, CountRule::CrashLooping), count_entry(mg.pods.deep_view(), "pending_count"@, CountRule::PendingPod), count_entry(mg.pods.deep_view(), "oomkilled_count"@, CountRule::OomKilled)])
    &&& collection_is(r.core.workloads.deployments, mg.deployments.deep_view(), summary_only, seq![count_entry(mg.deployments.deep_view(), "unavailable_count"@, CountRule::UnavailableDeployment)])
    &&& collection_is(r.core.workloads.statefulsets, mg.statefulsets.deep_view(), summary_only, seq![count_entry(mg.statefulsets.deep_view(), "unavailable_count"@, CountRule::UnavailableStatefulSet)])
    &&& collection_is(r.core.workloads.configmaps, mg.configmaps.deep_view(), summary_only, Seq::empty())
    &&& collection_is(r.core.workloads.secrets, mg.secrets.deep_view(), summary_only, Seq::empty())
    &&& collection_is(r.core.workloads.daemonsets, mg.daemonsets.deep_view(), summary_only, seq![count_entry(mg.daemonsets.deep_view(), "misscheduled_count"@, CountRule::Misscheduled)])
    &&& collection_is(r.core.workloads.jobs, mg.jobs.deep_view(), summary_only, seq![count_entry(mg.jobs.deep_view(), "failed_count"@, CountRule::FailedJob)])
    &&& collection_is(r.core.workloads.cronjobs, mg.cronjobs.deep_view(), summary_only, seq![count_entry(mg.cronjobs.deep_view(), "suspended_count"@, CountRule::Suspended)])
    &&& collection_is(r.core.workloads.replicasets, mg.replicasets.deep_view(), summary_only, seq![count_entry(mg.replicasets.deep_view(), "unavailable_count"@, CountRule::UnavailableReplicaSet)])
    &&& collection_is(r.core.namespaces, mg.namespaces.deep_view(), summary_only, Seq::empty())
    &&& collection_is(r.core.events, mg.events.deep_view(), summary_only, seq![count_entry(mg.events.deep_view(), "warning_count"@, CountRule::Warned)])
    &&& collection_is(r.compute.machines, mg.machines.deep_view(), summary_only, seq![count_entry(mg.machines.deep_view(), "not_running_count"@, CountRule::Failing)])
    &&& collection_is(r.compute.machine_health_checks, mg.machinehealthchecks.deep_view(), summary_only, seq![count_entry(mg.machinehealthchecks.deep_view(), "unhealthy_count"@, CountRule::Failing)])
    &&& collection_is(r.compute.machine_autoscalers, mg.machineautoscalers.deep_view(), summary_only, Seq::empty())
    &&& collection_is(r.compute.control_plane_machine_sets, mg.controlplanemachinesets.deep_view(), summary_only, Seq::empty())
    &&& collection_is(r.compute.machine_sets, mg.machinesets.deep_view(), summary_only, Seq::empty())
    &&& collection_is(r.compute.machine_configs, mg.machineconfigs.deep_view(), summary_only, Seq::empty())
    &&& collection_is(r.compute.machine_config_pools, mg.machineconfigpools.deep_view(), summary_only, seq![count_entry(mg.machineconfigpools.deep_view(), "degraded_count"@, CountRule::Failing), ("updating_count"@, warning_only_count(mg.machineconfigpools.deep_view()))])
    &&& collection_is(r.compute.machine_configurations, mg.machineconfigurations.deep_view(), summary_only, seq![count_entry(mg.machineconfigurations.deep_view(), "degraded_count"@, CountRule::Failing), ("progressing_count"@, warning_only_count(mg.machineconfigurations.deep_view()))])
    &&& collection_is(r.infrastructure.networking.routes, mg.routes.deep_view(), summary_only, seq![count_entry(mg.routes.deep_view(), "unadmitted_count"@, CountRule::Unadmitted)])
    &&& collection_is(r.infrastructure.networking.services, mg.services.deep_view(), summary_only, seq![("no_endpoints_count"@, 0usize)])
    &&& collection_is(r.infrastructure.networking.endpoints, mg.endpoints.deep_view(), summary_only, seq![count_entry(mg.endpoints.deep_view(), "not_ready_count"@, CountRule::NoReadyAddress)])
    &&& collection_is(r.infrastructure.networking.network_policies, mg.networkpolicies.deep_view(), summary_only, seq![count_entry(mg.networkpolicies.deep_view(), "warning_count"@, CountRule::Unhealthy)])
    &&& collection_is(r.infrastructure.networking.ingress_controllers, mg.ingress_controllers.deep_view(), summary_only, seq![count_entry(mg.ingress_controllers.deep_view(), "degraded_count"@, CountRule::Degraded)])
    &&& collection_is(r.security.cluster_roles, mg.clusterroles.deep_view(), summary_only, Seq::empty())
    &&& collection_is(r.security.cluster_role_bindings, mg.clusterrolebindings.deep_view(), summary_only, Seq::empty())
    &&& collection_is(r.security.security_context_constraints, mg.securitycontextconstraints.deep_view(), summary_only, seq![count_entry(mg.securitycontextconstraints.deep_view(), "warning_count"@, CountRule::Unhealthy)])
    &&& collection_is(r.administration.cluster_settings, mg.cluster_settings.deep_view(), summary_only, Seq::empty())
    &&& collection_is(r.administration.namespaces, mg.namespaces.deep_view(), summary_only, Seq::empty())
    &&& collection_is(r.administration.resource_quotas, mg.resourcequotas.deep_view(), summary_only, Seq::empty())
    &&& collection_is(r.administration.limit_ranges, mg.limitranges.deep_view(), summary_only, Seq::empty())
    &&& collection_is(r.administration.custom_resource_definitions, mg.customresourcedefinitions.deep_view(), summary_only, Seq::empty())
    &&& collection_is(r.administration.dynamic_plugins, mg.dynamicplugins.deep_view(), summary_only, Seq::empty())
    &&& collection_is(r.infrastructure.storage.pvcs, mg.pvcs.deep_view(), summary_only, seq![count_entry(mg.pvcs.deep_view(), "pending_count"@, CountRule::PendingClaim)])
    &&& collection_is(r.infrastructure.storage.pvs, mg.pvs.deep_view(), summary_only, seq![count_entry(mg.pvs.deep_view(), "unbound_count"@, CountRule::UnboundVolume)])
    &&& collection_is(r.infrastructure.storage.storage_classes, mg.storage_classes.deep_view(), summary_only, Seq::empty())
    &&& collection_is(r.infrastructure.storage.volume_attachments, mg.volume_attachments.deep_view(), summary_only, seq![count_entry(mg.volume_attachments.deep_view(), "failed_count"@, CountRule::FailedAttachment)])
    &&& collection_is(r.platform.virtualization.hyperconvergeds, mg.virtualization.hyperconvergeds.deep_view(), summary_only, Seq::empty())
    &&& collection_is(r.platform.virtualization.kubevirts, mg.virtualization.kubevirts.deep_view(), summary_only, Seq::empty())
    &&& collection_is(r.platform.virtualization.virtual_machines, mg.virtualization.virtual_machines.deep_view(), summary_only, Seq::empty())
    &&& collection_is(r.platform.virtualization.virtual_machine_instances, mg.virtualization.virtual_machine_instances.deep_view(), summary_only, Seq::empty())
    &&& collection_is(r.platform.virtualization.virtual_machine_pools, mg.virtualization.virtual_machine_pools.deep_view(), summary_only, Seq::empty())
    &&& collection_is(r.platform.virtualization.virtual_machine_exports, mg.virtualization.virtual_machine_exports.deep_view(), summary_only, Seq::empty())
    &&& collection_is(r.platform.virtualization.virtual_machine_clones, mg.virtualization.virtual_machine_clones.deep_view(), summary_only, Seq::empty())
    &&& collection_is(r.platform.virtualization.virtual_machine_snapshots, mg.virtualization.virtual_machine_snapshots.deep_view(), summary_only, Seq::empty())
    &&& collection_is(r.platform.virtualization.virtual_machine_snapshot_contents, mg.virtualization.virtual_machine_snapshot_contents.deep_view(), summary_only, Seq::empty())
    &&& collection_is(r.platform.virtualization.virtual_machine_restores, mg.virtualization.virtual_machine_restores.deep_view(), summary_only, Seq::empty())
    &&& collection_is(r.platform.virtualization.data_volumes, mg.virtualization.data_volumes.deep_view(), summary_only, Seq::empty())
    &&& collection_is(r.platform.virtualization.data_sources, mg.virtualization.data_sources.deep_view(), summary_only, Seq::empty())
    &&& collection_is(r.platform.virtualization.data_import_crons, mg.virtualization.data_import_crons.deep_view(), summary_only, Seq::empty())
    &&& collection_is(r.platform.virtualization.instance_types, mg.virtualization.instance_types.deep_view(), summary_only, Seq::empty())
    &&& collection_is(r.platform.virtualization.preferences, mg.virtualization.preferences.deep_view(), summary_only, Seq::empty())
    &&& r.platform.fusion_detected == mg.platform_info.fusion_detected
    &&& r.platform.odf_detected == mg.platform_info.odf_detected
    &&& r.platform.service_mesh_detected == mg.platform_info.service_mesh_detected
    &&& r.platform.acm_detected == mg.platform_info.acm_detected
    &&& r.platform.virtualization_detected == mg.platform_info.virtualization_detected
    &&& r.platform.cpd_detected == mg.platform_info.cpd_detected
}

#[verifier::spinoff_prover]
pub fn from_must_gather_with_mode(mg: &MustGather, summary_only: bool) -> (r: TriageMustGatherData)
    ensures
        report_of(r, *mg, summary_only),
{
    let registry = AnalyzerRegistry::new();
    let total_nodes = mg.nodes.len();
    let healthy_nodes = total_nodes - count_matching(&mg.nodes, CountRule::Unhealthy);
    let total_pods = mg.pods.len();
    let healthy_pods = total_pods - count_matching(&mg.pods, CountRule::Unhealthy);
    let total_operators = mg.clusteroperators.len();
    let degraded_operators = count_matching(&mg.clusteroperators, CountRule::Degraded);
    let dashboard = DashboardData {
        total_nodes,
        healthy_nodes,
        total_pods,
        healthy_pods,
        total_operators,
        degraded_operators,
        cluster_version: if !str_eq(mg.version.as_str(), "Unknown") {
            Some(copy_string(&mg.version))
        } else {
            None
        },
        platform_type: if !str_eq(mg.platformtype.as_str(), "Unknown") {
            Some(copy_string(&mg.platformtype))
        } else {
            None
        },
        collection_timestamp: copy_opt_string(&mg.collection_timestamp),
    };
    let cluster_health = ClusterHealthData {
        operators: serialize_resources(&mg.clusteroperators, &registry, summary_only),
        installed_operators: collection(&mg.operators, &registry, summary_only, counts2("error_count", count_matching(&mg.operators, CountRule::Failing), "warning_count", warning_only(&mg.operators))),
        degraded_count: degraded_operators,
        unavailable_count: count_matching(&mg.clusteroperators, CountRule::Unavailable),
    };
    let nodes = collection(&mg.nodes, &registry, summary_only, counts2("not_ready_count", count_matching(&mg.nodes, CountRule::NotReady), "pressure_count", count_matching(&mg.nodes, CountRule::UnderPressure)));
    let workloads = workloads_section(mg, &registry, summary_only);
    let namespaces = collection(&mg.namespaces, &registry, summary_only, no_counts());
    let events = collection(&mg.events, &registry, summary_only, counts1("warning_count", count_matching(&mg.events, CountRule::Warned)));
    let compute = compute_section(mg, &registry, summary_only);
    let networking = networking_section(mg, &registry, summary_only);
    let security = security_section(mg, &registry, summary_only);
    let administration = administration_section(mg, &registry, summary_only);
    let storage = storage_section(mg, &registry, summary_only);
    let virtualization = virtualization_section(mg, &registry, summary_only);
    let platform = PlatformData {
        fusion_detected: mg.platform_info.fusion_detected,
        odf_detected: mg.platform_info.odf_detected,
        service_mesh_detected: mg.platform_info.service_mesh_detected,
        acm_detected: mg.platform_info.acm_detected,
        virtualization_detected: mg.platform_info.virtualization_detected,
        cpd_detected: mg.platform_info.cpd_detected,
        virtualization,
    };
    TriageMustGatherData {
        overview: OverviewSection { dashboard, cluster_health },
        core: CoreSection { nodes, workloads, namespaces, events },
        compute,
        security,
        administration,
        infrastructure: InfrastructureSection { networking, storage },
        platform,
    }
}

impl TriageMustGatherData {
    /// The full report data of a must-gather.
    pub fn from_must_gather(mg: &MustGather) -> (r: TriageMustGatherData)
        ensures
            report_of(r, *mg, false),
    {
        from_must_gather_with_mode(mg, false)
    }

    /// The summary report data of a must-gather.
    pub fn from_must_gather_summary(mg: &MustGather) -> (r: TriageMustGatherData)
        ensures
            report_of(r, *mg, true),
    {
        from_must_gather_with_mode(mg, true)
    }
}

} // verus!
