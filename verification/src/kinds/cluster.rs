//! Cluster-wide resources: namespaces, config maps and cluster operators.
use crate::kinds::{
    base_snapshot, base_view, condition_views, conditions_of, msg_if, owner_reference_views,
    owner_references_of, push_field, push_text,
};
use crate::manifest::{
    doc_at, manifest_has_condition, manifest_has_condition_status, metadata_str, Manifest,
    ManifestView,
};
use crate::resources::{
    copy_string, join3, or_text, str_eq, HealthStatus, RelationshipType, ResourceLink,
    ResourceLinkView, ResourceSnapshot, ResourceV2, SnapshotView,
};
use crate::text::{bool_to_text, decimal, usize_to_text};
use crate::yaml::{bool_of, entries_view, hash_of, items_view, key_views, lookup, str_of, vec_of, YamlValue, YamlView};
use crate::resources::Resource;
use crate::kinds::{no_names, two_names};
use vstd::prelude::*;

verus! {

/// The texts joined with `sep` between them.
pub open spec fn joined(items: Seq<Seq<char>>, sep: Seq<char>) -> Seq<char>
    decreases items.len(),
{
    if items.len() == 0 {
        Seq::empty()
    } else if items.len() == 1 {
        items[0]
    } else {
        joined(items.drop_last(), sep) + sep + items.last()
    }
}

/// The texts joined with `sep` between them (`[String]::join`).
pub fn join_texts(items: &Vec<String>, sep: &str) -> (r: String)
    ensures
        r@ == joined(items.deep_view(), sep@),
{
    let ghost iv = items.deep_view();
    let mut r = String::new();
    let mut i: usize = 0;
    assert(iv.take(0) =~= Seq::<Seq<char>>::empty());
    while i < items.len()
        invariant
            i <= items.len(),
            iv == items.deep_view(),
            r@ == joined(iv.take(i as int), sep@),
        decreases items.len() - i,
    {
        assert(iv.take(i + 1).drop_last() =~= iv.take(i as int));
        assert(iv[i as int] == items@[i as int]@);
        if i > 0 {
            r.append(sep);
        } else {
            assert(iv.take(1) =~= seq![iv[0]]);
            assert(r@ =~= Seq::<char>::empty());
        }
        r.append(items[i].as_str());
        i = i + 1;
    }
    assert(iv.take(items.len() as int) =~= iv);
    r
}

// ---------------------------------------------------------------------------
// Namespace
// ---------------------------------------------------------------------------
/// The phase of a namespace, `Active` when none is given.
pub open spec fn namespace_phase(m: ManifestView) -> Seq<char> {
    or_text(str_of(doc_at(m, seq!["status"@, "phase"@])), "Active"@)
}

/// What a namespace with the given phase yields.
pub open spec fn namespace_view(m: ManifestView, phase: Seq<char>) -> SnapshotView {
    SnapshotView {
        health_status: if phase == "Active"@ {
            HealthStatus::Healthy
        } else {
            HealthStatus::Warning
        },
        warnings: msg_if(phase != "Active"@, "Namespace is in "@ + phase + " phase"@),
        summary: Some("Namespace "@ + m.name + " - Phase: "@ + phase),
        key_fields: seq![("phase"@, phase)],
        ..base_view(m, "Namespace"@, None)
    }
}

/// A namespace.
#[derive(Debug)]
pub struct Namespace {
    manifest: Manifest,
    pub phase: String,
}

impl Namespace {
    /// The manifest the namespace was read from.
    pub closed spec fn manifest_view(self) -> ManifestView {
        self.manifest@
    }

    /// The namespace's phase.
    pub closed spec fn phase_view(self) -> Seq<char> {
        self.phase@
    }

    /// A namespace known by its name only: its text is its name, its phase
    /// Active.
    pub fn new(name: String) -> (r: Namespace)
        ensures
            r.manifest_view().name == name@,
            r.manifest_view().raw == name@,
            r.manifest_view().yaml is None,
            r.phase_view() == "Active"@,
    {
        let raw = copy_string(&name);
        Namespace {
            manifest: Manifest { name, raw, yaml: None },
            phase: String::from_str("Active"),
        }
    }

    /// Reads a namespace from its manifest.
    pub fn from(manifest: Manifest) -> (r: Namespace)
        ensures
            r.manifest_view() == manifest@,
            r.phase_view() == namespace_phase(manifest@),
    {
        let keys: [&str; 2] = ["status", "phase"];
        assert(key_views(keys@) =~= seq!["status"@, "phase"@]);
        let phase = match manifest.at(&keys) {
            Some(p) => match p.as_str() {
                Some(s) => String::from_str(s),
                None => String::from_str("Active"),
            },
            None => String::from_str("Active"),
        };
        Namespace { manifest, phase }
    }

    /// The namespace's name.
    pub fn name(&self) -> (r: &String)
        ensures
            r@ == self.manifest_view().name,
    {
        &self.manifest.name
    }
}

impl ResourceV2 for Namespace {
    open spec fn describe(&self) -> SnapshotView {
        namespace_view(self.manifest_view(), self.phase_view())
    }

    fn snapshot(&self) -> (r: ResourceSnapshot) {
        let m = &self.manifest;
        let mut s = base_snapshot(m, "Namespace", &None);
        let active = str_eq(self.phase.as_str(), "Active");
        s.health_status = if active {
            HealthStatus::Healthy
        } else {
            HealthStatus::Warning
        };
        if !active {
            push_text(&mut s.warnings, join3("Namespace is in ", self.phase.as_str(), " phase"));
        }
        let mut summary = join3("Namespace ", m.name.as_str(), " - Phase: ");
        summary.append(self.phase.as_str());
        s.summary = Some(summary);
        push_field(&mut s.key_fields, "phase", copy_string(&self.phase));
        proof {
            let v = namespace_view(m@, self.phase@);
            assert(s@.warnings =~= v.warnings);
            assert(s@.key_fields =~= v.key_fields);
        }
        s
    }
}

// ---------------------------------------------------------------------------
// ConfigMap
// ---------------------------------------------------------------------------
/// The string keys of mapping entries, in order.
pub open spec fn string_keys(entries: Seq<(YamlView, YamlView)>) -> Seq<Seq<char>>
    decreases entries.len(),
{
    if entries.len() == 0 {
        Seq::empty()
    } else {
        let init = string_keys(entries.drop_last());
        match entries.last().0 {
            YamlView::String(k) => init.push(k),
            _ => init,
        }
    }
}

/// The string keys of the mapping under `key`, or none.
pub open spec fn keys_under(m: ManifestView, key: Seq<char>) -> Seq<Seq<char>> {
    match hash_of(doc_at(m, seq![key])) {
        Some(h) => string_keys(h),
        None => Seq::empty(),
    }
}

/// Whether the config map is immutable.
pub open spec fn is_immutable(m: ManifestView) -> bool {
    match bool_of(doc_at(m, seq!["immutable"@])) {
        Some(b) => b,
        None => false,
    }
}

/// What a config map yields.
pub open spec fn configmap_view(m: ManifestView) -> SnapshotView {
    let data = keys_under(m, "data"@);
    let binary = keys_under(m, "binaryData"@);
    SnapshotView {
        health_status: HealthStatus::Healthy,
        summary: Some(
            "ConfigMap "@ + m.name + " - "@ + decimal((data.len() + binary.len()) as int) + " data keys"@,
        ),
        key_fields: seq![
            ("data_count"@, decimal(data.len() as int)),
            ("binary_data_count"@, decimal(binary.len() as int)),
            ("immutable"@, if is_immutable(m) { "true"@ } else { "false"@ }),
            ("data_keys"@, joined(data, ", "@)),
            ("binary_data_keys"@, joined(binary, ", "@)),
        ],
        owner_references: owner_reference_views(m),
        ..base_view(m, "ConfigMap"@, metadata_str(m, "namespace"@))
    }
}

/// The string keys of the mapping under `key`.
fn keys_of(m: &Manifest, key: &str) -> (r: Vec<String>)
    ensures
        r.deep_view() == keys_under(m@, key@),
{
    let keys: [&str; 1] = [key];
    assert(key_views(keys@) =~= seq![key@]);
    let mut out: Vec<String> = Vec::new();
    match m.at(&keys) {
        Some(node) => match node.as_hash() {
            Some(entries) => {
                let ghost ev = entries_view(entries@);
                let mut i: usize = 0;
                assert(ev.take(0) =~= Seq::<(YamlView, YamlView)>::empty());
                while i < entries.len()
                    invariant
                        i <= entries.len(),
                        ev == entries_view(entries@),
                        out.deep_view() == string_keys(ev.take(i as int)),
                    decreases entries.len() - i,
                {
                    assert(ev.take(i + 1).drop_last() =~= ev.take(i as int));
                    assert(ev[i as int].0 == entries@[i as int].0@);
                    let ghost before = out.deep_view();
                    match &entries[i].0 {
                        YamlValue::String(k) => {
                            out.push(copy_string(k));
                            assert(out.deep_view() =~= before.push(k@));
                        },
                        _ => {},
                    }
                    i = i + 1;
                }
                assert(ev.take(entries.len() as int) =~= ev);
            },
            None => {},
        },
        None => {},
    }
    out
}

/// A config map.
#[derive(Debug)]
pub struct ConfigMap {
    manifest: Manifest,
    namespace: Option<String>,
    data_keys: Vec<String>,
    binary_data_keys: Vec<String>,
    immutable: bool,
}

impl ConfigMap {
    #[verifier::type_invariant]
    spec fn wf(self) -> bool {
        let m = self.manifest@;
        &&& self.namespace.deep_view() == metadata_str(m, "namespace"@)
        &&& self.data_keys.deep_view() == keys_under(m, "data"@)
        &&& self.binary_data_keys.deep_view() == keys_under(m, "binaryData"@)
        &&& self.immutable == is_immutable(m)
    }

    /// The manifest the config map was read from.
    pub closed spec fn manifest_view(self) -> ManifestView {
        self.manifest@
    }

    /// Reads a config map from its manifest.
    pub fn from(manifest: Manifest) -> (r: ConfigMap)
        ensures
            r.manifest_view() == manifest@,
    {
        let namespace = manifest.namespace();
        let data_keys = keys_of(&manifest, "data");
        let binary_data_keys = keys_of(&manifest, "binaryData");
        let keys: [&str; 1] = ["immutable"];
        assert(key_views(keys@) =~= seq!["immutable"@]);
        let immutable = match manifest.at(&keys) {
            Some(n) => match n.as_bool() {
                Some(b) => b,
                None => false,
            },
            None => false,
        };
        ConfigMap { manifest, namespace, data_keys, binary_data_keys, immutable }
    }
}

impl ResourceV2 for ConfigMap {
    open spec fn describe(&self) -> SnapshotView {
        configmap_view(self.manifest_view())
    }

    fn snapshot(&self) -> (r: ResourceSnapshot) {
        proof {
            use_type_invariant(self);
        }
        let m = &self.manifest;
        let mut s = base_snapshot(m, "ConfigMap", &self.namespace);
        s.health_status = HealthStatus::Healthy;
        let total: u128 = self.data_keys.len() as u128 + self.binary_data_keys.len() as u128;
        let mut summary = join3("ConfigMap ", m.name.as_str(), " - ");
        summary.append(crate::text::u128_to_text(total).as_str());
        summary.append(" data keys");
        s.summary = Some(summary);
        push_field(&mut s.key_fields, "data_count", usize_to_text(self.data_keys.len()));
        push_field(
            &mut s.key_fields,
            "binary_data_count",
            usize_to_text(self.binary_data_keys.len()),
        );
        push_field(&mut s.key_fields, "immutable", bool_to_text(self.immutable));
        push_field(&mut s.key_fields, "data_keys", join_texts(&self.data_keys, ", "));
        push_field(&mut s.key_fields, "binary_data_keys", join_texts(&self.binary_data_keys, ", "));
        s.owner_references = owner_references_of(m);
        proof {
            let v = configmap_view(m@);
            assert(s@.key_fields =~= v.key_fields);
        }
        s
    }
}

// ---------------------------------------------------------------------------
// ClusterOperator
// ---------------------------------------------------------------------------
/// The kind of a related object by its resource name.
pub open spec fn related_kind(resource: Seq<char>) -> Seq<char> {
    if resource == "namespaces"@ {
        "Namespace"@
    } else if resource == "deployments"@ {
        "Deployment"@
    } else if resource == "daemonsets"@ {
        "DaemonSet"@
    } else if resource == "statefulsets"@ {
        "StatefulSet"@
    } else if resource == "replicasets"@ {
        "ReplicaSet"@
    } else if resource == "pods"@ {
        "Pod"@
    } else if resource == "configmaps"@ {
        "ConfigMap"@
    } else if resource == "secrets"@ {
        "Secret"@
    } else if resource == "services"@ {
        "Service"@
    } else if resource == "routes"@ {
        "Route"@
    } else if resource == "serviceaccounts"@ {
        "ServiceAccount"@
    } else if resource == "clusterserviceversions"@ {
        "ClusterServiceVersion"@
    } else if resource == "subscriptions"@ {
        "Subscription"@
    } else if resource == "packageservers"@ {
        "PackageServer"@
    } else {
        resource
    }
}

/// The kind of a related object by its resource name.
pub fn related_object_kind(resource: &str) -> (r: String)
    ensures
        r@ == related_kind(resource@),
{
    let k = if str_eq(resource, "namespaces") {
        "Namespace"
    } else if str_eq(resource, "deployments") {
        "Deployment"
    } else if str_eq(resource, "daemonsets") {
        "DaemonSet"
    } else if str_eq(resource, "statefulsets") {
        "StatefulSet"
    } else if str_eq(resource, "replicasets") {
        "ReplicaSet"
    } else if str_eq(resource, "pods") {
        "Pod"
    } else if str_eq(resource, "configmaps") {
        "ConfigMap"
    } else if str_eq(resource, "secrets") {
        "Secret"
    } else if str_eq(resource, "services") {
        "Service"
    } else if str_eq(resource, "routes") {
        "Route"
    } else if str_eq(resource, "serviceaccounts") {
        "ServiceAccount"
    } else if str_eq(resource, "clusterserviceversions") {
        "ClusterServiceVersion"
    } else if str_eq(resource, "subscriptions") {
        "Subscription"
    } else if str_eq(resource, "packageservers") {
        "PackageServer"
    } else {
        resource
    };
    String::from_str(k)
}

/// The links of the related objects with a resource and a name.
pub open spec fn related_links(items: Seq<YamlView>) -> Seq<ResourceLinkView>
    decreases items.len(),
{
    if items.len() == 0 {
        Seq::empty()
    } else {
        let init = related_links(items.drop_last());
        let it = items.last();
        let resource = or_text(str_of(lookup(it, "resource"@)), ""@);
        let name = or_text(str_of(lookup(it, "name"@)), ""@);
        if resource.len() == 0 || name.len() == 0 {
            init
        } else {
            init.push(
                ResourceLinkView {
                    kind: related_kind(resource),
                    name,
                    namespace: str_of(lookup(it, "namespace"@)),
                    relationship: RelationshipType::References,
                },
            )
        }
    }
}

/// The related objects listed in the status.
pub open spec fn related_objects(m: ManifestView) -> Seq<YamlView> {
    match vec_of(doc_at(m, seq!["status"@, "relatedObjects"@])) {
        Some(v) => v,
        None => Seq::empty(),
    }
}

/// The status word of a cluster operator.
pub open spec fn operator_status_word(available: bool, degraded: bool) -> Seq<char> {
    if available && !degraded {
        "Available"@
    } else if degraded {
        "Degraded"@
    } else {
        "Unavailable"@
    }
}

/// A boolean as text.
pub open spec fn bool_text(b: bool) -> Seq<char> {
    if b {
        "true"@
    } else {
        "false"@
    }
}

/// What a cluster operator yields.
pub open spec fn clusteroperator_view(m: ManifestView) -> SnapshotView {
    let available = manifest_has_condition_status(m, "Available"@, "True"@);
    let degraded = manifest_has_condition_status(m, "Degraded"@, "True"@);
    let upgradeable = manifest_has_condition_status(m, "Upgradeable"@, "True"@);
    let has_upgradeable = manifest_has_condition(m, "Upgradeable"@);
    SnapshotView {
        health_status: if !available || degraded {
            HealthStatus::Error
        } else if !upgradeable && has_upgradeable {
            HealthStatus::Warning
        } else {
            HealthStatus::Healthy
        },
        conditions: condition_views(m),
        warnings: msg_if(!upgradeable && has_upgradeable, "Operator is not upgradeable"@) + msg_if(
            manifest_has_condition_status(m, "Progressing"@, "True"@),
            "Operator is progressing"@,
        ),
        errors: msg_if(!available, "Operator is not available"@) + msg_if(
            degraded,
            "Operator is degraded"@,
        ),
        summary: Some(
            "ClusterOperator "@ + m.name + " - Status: "@ + operator_status_word(available, degraded),
        ),
        key_fields: seq![
            ("available"@, bool_text(available)),
            ("degraded"@, bool_text(degraded)),
            ("upgradeable"@, bool_text(upgradeable)),
        ],
        relationships: related_links(related_objects(m)),
        ..base_view(m, "ClusterOperator"@, None)
    }
}

/// A cluster operator.
#[derive(Debug)]
pub struct ClusterOperator {
    manifest: Manifest,
    available: bool,
    degraded: bool,
    upgradeable: bool,
    has_upgradeable: bool,
}

impl ClusterOperator {
    #[verifier::type_invariant]
    spec fn wf(self) -> bool {
        let m = self.manifest@;
        &&& self.available == manifest_has_condition_status(m, "Available"@, "True"@)
        &&& self.degraded == manifest_has_condition_status(m, "Degraded"@, "True"@)
        &&& self.upgradeable == manifest_has_condition_status(m, "Upgradeable"@, "True"@)
        &&& self.has_upgradeable == manifest_has_condition(m, "Upgradeable"@)
    }

    /// The manifest the operator was read from.
    pub closed spec fn manifest_view(self) -> ManifestView {
        self.manifest@
    }

    /// Reads a cluster operator from its manifest.
    pub fn from(manifest: Manifest) -> (r: ClusterOperator)
        ensures
            r.manifest_view() == manifest@,
    {
        let available = manifest.has_condition_status("Available", "True");
        let degraded = manifest.has_condition_status("Degraded", "True");
        let upgradeable = manifest.has_condition_status("Upgradeable", "True");
        let has_upgradeable = manifest.has_condition("Upgradeable");
        ClusterOperator { manifest, available, degraded, upgradeable, has_upgradeable }
    }
}

/// The links of the related objects.
fn related_links_of(m: &Manifest) -> (r: Vec<ResourceLink>)
    ensures
        r.deep_view() == related_links(related_objects(m@)),
{
    proof {
        reveal_strlit("");
    }
    let keys: [&str; 2] = ["status", "relatedObjects"];
    assert(key_views(keys@) =~= seq!["status"@, "relatedObjects"@]);
    let mut out: Vec<ResourceLink> = Vec::new();
    match m.at(&keys) {
        Some(node) => match node.as_vec() {
            Some(items) => {
                let ghost iv = items_view(items@);
                let mut i: usize = 0;
                assert(iv.take(0) =~= Seq::<YamlView>::empty());
                while i < items.len()
                    invariant
                        i <= items.len(),
                        iv == items_view(items@),
                        out.deep_view() == related_links(iv.take(i as int)),
                    decreases items.len() - i,
                {
                    assert(iv.take(i + 1).drop_last() =~= iv.take(i as int));
                    assert(iv[i as int] == items@[i as int]@);
                    let it = &items[i];
                    let resource = match it.get("resource") {
                        Some(v) => match v.as_str() {
                            Some(t) => t,
                            None => "",
                        },
                        None => "",
                    };
                    let name = match it.get("name") {
                        Some(v) => match v.as_str() {
                            Some(t) => t,
                            None => "",
                        },
                        None => "",
                    };
                    if resource.unicode_len() > 0 && name.unicode_len() > 0 {
                        let namespace = match it.get("namespace") {
                            Some(v) => match v.as_str() {
                                Some(t) => Some(String::from_str(t)),
                                None => None,
                            },
                            None => None,
                        };
                        let l = ResourceLink {
                            kind: related_object_kind(resource),
                            name: String::from_str(name),
                            namespace,
                            relationship: RelationshipType::References,
                        };
                        let ghost before = out.deep_view();
                        out.push(l);
                        assert(out.deep_view() =~= before.push(l@));
                    }
                    i = i + 1;
                }
                assert(iv.take(items.len() as int) =~= iv);
            },
            None => {},
        },
        None => {},
    }
    out
}

impl ResourceV2 for ClusterOperator {
    open spec fn describe(&self) -> SnapshotView {
        clusteroperator_view(self.manifest_view())
    }

    fn snapshot(&self) -> (r: ResourceSnapshot) {
        proof {
            use_type_invariant(self);
        }
        let m = &self.manifest;
        let (available, degraded, upgradeable, has_upgradeable) = (
            self.available,
            self.degraded,
            self.upgradeable,
            self.has_upgradeable,
        );
        let mut s = base_snapshot(m, "ClusterOperator", &None);
        s.health_status = if !available || degraded {
            HealthStatus::Error
        } else if !upgradeable && has_upgradeable {
            HealthStatus::Warning
        } else {
            HealthStatus::Healthy
        };
        s.conditions = conditions_of(m);
        if !upgradeable && has_upgradeable {
            push_text(&mut s.warnings, String::from_str("Operator is not upgradeable"));
        }
        if m.has_condition_status("Progressing", "True") {
            push_text(&mut s.warnings, String::from_str("Operator is progressing"));
        }
        if !available {
            push_text(&mut s.errors, String::from_str("Operator is not available"));
        }
        if degraded {
            push_text(&mut s.errors, String::from_str("Operator is degraded"));
        }
        let word = if available && !degraded {
            "Available"
        } else if degraded {
            "Degraded"
        } else {
            "Unavailable"
        };
        let mut summary = join3("ClusterOperator ", m.name.as_str(), " - Status: ");
        summary.append(word);
        s.summary = Some(summary);
        push_field(&mut s.key_fields, "available", bool_to_text(available));
        push_field(&mut s.key_fields, "degraded", bool_to_text(degraded));
        push_field(&mut s.key_fields, "upgradeable", bool_to_text(upgradeable));
        s.relationships = related_links_of(m);
        proof {
            let v = clusteroperator_view(m@);
            assert(s@.warnings =~= v.warnings);
            assert(s@.errors =~= v.errors);
            assert(s@.key_fields =~= v.key_fields);
        }
        s
    }
}

// ---------------------------------------------------------------------------
// The first view of each kind
// ---------------------------------------------------------------------------

impl Resource for ClusterOperator {
    open spec fn failing(&self) -> bool {
        !manifest_has_condition_status(self.manifest_view(), "Available"@, "True"@) || manifest_has_condition_status(self.manifest_view(), "Degraded"@, "True"@)
    }

    open spec fn warned(&self) -> bool {
        !manifest_has_condition_status(self.manifest_view(), "Upgradeable"@, "True"@) && manifest_has_condition(self.manifest_view(), "Upgradeable"@)
    }

    open spec fn flagged(&self) -> Seq<Seq<char>> {
        msg_if(manifest_has_condition_status(self.manifest_view(), "Degraded"@, "True"@), "Degraded"@) + msg_if(manifest_has_condition_status(self.manifest_view(), "Progressing"@, "True"@), "Progressing"@)
    }

    fn is_error(&self) -> (r: bool) {
        !self.manifest.has_condition_status("Available", "True") || self.manifest.has_condition_status("Degraded", "True")
    }

    fn is_warning(&self) -> (r: bool) {
        !self.manifest.has_condition_status("Upgradeable", "True") && self.manifest.has_condition("Upgradeable")
    }

    fn conditions(&self) -> (r: Vec<String>) {
        two_names(self.manifest.has_condition_status("Degraded", "True"), "Degraded", self.manifest.has_condition_status("Progressing", "True"), "Progressing")
    }
}

impl Resource for ConfigMap {
    open spec fn failing(&self) -> bool {
        false
    }

    open spec fn warned(&self) -> bool {
        false
    }

    open spec fn flagged(&self) -> Seq<Seq<char>> {
        Seq::empty()
    }

    fn is_error(&self) -> (r: bool) {
        false
    }

    fn is_warning(&self) -> (r: bool) {
        false
    }

    fn conditions(&self) -> (r: Vec<String>) {
        no_names()
    }
}

impl Resource for Namespace {
    open spec fn failing(&self) -> bool {
        false
    }

    open spec fn warned(&self) -> bool {
        false
    }

    open spec fn flagged(&self) -> Seq<Seq<char>> {
        Seq::empty()
    }

    fn is_error(&self) -> (r: bool) {
        false
    }

    fn is_warning(&self) -> (r: bool) {
        false
    }

    fn conditions(&self) -> (r: Vec<String>) {
        no_names()
    }
}

} // verus!
