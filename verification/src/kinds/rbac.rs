//! Access control: cluster roles, their bindings and security context
//! constraints.
use crate::kinds::cluster::bool_text;
use crate::kinds::machine::{int_text, int_text_of};
use crate::kinds::networking::count_at;
use crate::kinds::{
    base_snapshot, base_view, keys1, keys2, msg_if, owner_reference_views, owner_references_of,
    push_field, push_text, text_at, text_of,
};
use crate::manifest::{doc_at, Manifest, ManifestView};
use crate::resources::{
    copy_string, join3, or_text, HealthStatus, RelationshipType, ResourceLink, ResourceLinkView,
    ResourceSnapshot, ResourceV2, SnapshotView,
};
use crate::text::{bool_to_text, decimal, i64_to_text, usize_to_text};
use crate::yaml::{bool_of, hash_of, key_views, vec_of};
use crate::resources::Resource;
use crate::kinds::{no_names, two_names};
use vstd::prelude::*;

verus! {

/// The length of the list at a path, or 0.
fn count_of(m: &Manifest, keys: &[&str]) -> (r: usize)
    ensures
        r == count_at(m@, key_views(keys@)),
{
    match m.at(keys) {
        Some(n) => match n.as_vec() {
            Some(items) => items.len(),
            None => 0,
        },
        None => 0,
    }
}

// ---------------------------------------------------------------------------
// ClusterRole
// ---------------------------------------------------------------------------
/// Whether a cluster role aggregates others.
pub open spec fn has_aggregation_rule(m: ManifestView) -> bool {
    hash_of(doc_at(m, seq!["aggregationRule"@])) is Some
}

/// What a cluster role yields.
pub open spec fn clusterrole_view(m: ManifestView) -> SnapshotView {
    let rules = count_at(m, seq!["rules"@]);
    SnapshotView {
        health_status: HealthStatus::Healthy,
        summary: Some("ClusterRole "@ + m.name + " - "@ + decimal(rules as int) + " rule(s)"@),
        key_fields: seq![
            ("rule_count"@, decimal(rules as int)),
            ("aggregation_rule"@, bool_text(has_aggregation_rule(m))),
        ],
        owner_references: owner_reference_views(m),
        ..base_view(m, "ClusterRole"@, None)
    }
}

/// A cluster role.
#[derive(Debug)]
pub struct ClusterRole {
    manifest: Manifest,
}

impl ClusterRole {
    /// The manifest the cluster role was read from.
    pub closed spec fn manifest_view(self) -> ManifestView {
        self.manifest@
    }

    /// Reads a cluster role from its manifest.
    pub fn from(manifest: Manifest) -> (r: ClusterRole)
        ensures
            r.manifest_view() == manifest@,
    {
        ClusterRole { manifest }
    }
}

impl ResourceV2 for ClusterRole {
    open spec fn describe(&self) -> SnapshotView {
        clusterrole_view(self.manifest_view())
    }

    fn snapshot(&self) -> (r: ResourceSnapshot) {
        let m = &self.manifest;
        let rules = usize_to_text(count_of(m, &keys1("rules")));
        let aggregation = match m.at(&keys1("aggregationRule")) {
            Some(n) => match n.as_hash() {
                Some(_) => true,
                None => false,
            },
            None => false,
        };
        let mut s = base_snapshot(m, "ClusterRole", &None);
        s.health_status = HealthStatus::Healthy;
        let mut summary = join3("ClusterRole ", m.name.as_str(), " - ");
        summary.append(rules.as_str());
        summary.append(" rule(s)");
        s.summary = Some(summary);
        push_field(&mut s.key_fields, "rule_count", rules);
        push_field(&mut s.key_fields, "aggregation_rule", bool_to_text(aggregation));
        s.owner_references = owner_references_of(m);
        proof {
            let v = clusterrole_view(m@);
            assert(s@.key_fields =~= v.key_fields);
        }
        s
    }
}

// ---------------------------------------------------------------------------
// ClusterRoleBinding
// ---------------------------------------------------------------------------
/// What a cluster role binding yields.
pub open spec fn clusterrolebinding_view(m: ManifestView) -> SnapshotView {
    let role = text_of(m, seq!["roleRef"@, "name"@]);
    let subjects = count_at(m, seq!["subjects"@]);
    SnapshotView {
        health_status: HealthStatus::Healthy,
        summary: Some(
            "ClusterRoleBinding "@ + m.name + " - "@ + decimal(subjects as int) + " subject(s) -> "@
                + or_text(role, "Unknown"@),
        ),
        key_fields: seq![
            ("role_ref"@, or_text(role, "Unknown"@)),
            ("subject_count"@, decimal(subjects as int)),
        ],
        relationships: match role {
            Some(name) => seq![
                ResourceLinkView {
                    kind: "ClusterRole"@,
                    name,
                    namespace: None,
                    relationship: RelationshipType::References,
                },
            ],
            None => Seq::empty(),
        },
        owner_references: owner_reference_views(m),
        ..base_view(m, "ClusterRoleBinding"@, None)
    }
}

/// A cluster role binding.
#[derive(Debug)]
pub struct ClusterRoleBinding {
    manifest: Manifest,
}

impl ClusterRoleBinding {
    /// The manifest the cluster role binding was read from.
    pub closed spec fn manifest_view(self) -> ManifestView {
        self.manifest@
    }

    /// Reads a cluster role binding from its manifest.
    pub fn from(manifest: Manifest) -> (r: ClusterRoleBinding)
        ensures
            r.manifest_view() == manifest@,
    {
        ClusterRoleBinding { manifest }
    }
}

impl ResourceV2 for ClusterRoleBinding {
    open spec fn describe(&self) -> SnapshotView {
        clusterrolebinding_view(self.manifest_view())
    }

    fn snapshot(&self) -> (r: ResourceSnapshot) {
        let m = &self.manifest;
        let role = text_at(m, &keys2("roleRef", "name"));
        let subjects = usize_to_text(count_of(m, &keys1("subjects")));
        let role_text = match &role {
            Some(r) => copy_string(r),
            None => String::from_str("Unknown"),
        };
        let mut s = base_snapshot(m, "ClusterRoleBinding", &None);
        s.health_status = HealthStatus::Healthy;
        let mut summary = join3("ClusterRoleBinding ", m.name.as_str(), " - ");
        summary.append(subjects.as_str());
        summary.append(" subject(s) -> ");
        summary.append(role_text.as_str());
        s.summary = Some(summary);
        push_field(&mut s.key_fields, "role_ref", role_text);
        push_field(&mut s.key_fields, "subject_count", subjects);
        match role {
            Some(name) => {
                let link = ResourceLink {
                    kind: String::from_str("ClusterRole"),
                    name,
                    namespace: None,
                    relationship: RelationshipType::References,
                };
                let ghost lv = link@;
                s.relationships.push(link);
                assert(s.relationships.deep_view() =~= seq![lv]);
            },
            None => {},
        }
        s.owner_references = owner_references_of(m);
        proof {
            let v = clusterrolebinding_view(m@);
            assert(s@.key_fields =~= v.key_fields);
            assert(s@.relationships =~= v.relationships);
        }
        s
    }
}

// ---------------------------------------------------------------------------
// SecurityContextConstraint
// ---------------------------------------------------------------------------
/// Whether a constraint allows privileged containers.
pub open spec fn allows_privileged(m: ManifestView) -> bool {
    bool_of(doc_at(m, seq!["allowPrivilegedContainer"@])) == Some(true)
}

/// What a security context constraint yields.
pub open spec fn scc_view(m: ManifestView) -> SnapshotView {
    let privileged = allows_privileged(m);
    let users = count_at(m, seq!["users"@]);
    let groups = count_at(m, seq!["groups"@]);
    SnapshotView {
        health_status: if privileged {
            HealthStatus::Warning
        } else {
            HealthStatus::Healthy
        },
        warnings: msg_if(privileged, "Privileged containers are allowed"@),
        summary: Some(
            "SecurityContextConstraint "@ + m.name + " - "@ + decimal(users as int) + " user(s), "@
                + decimal(groups as int) + " group(s)"@,
        ),
        key_fields: seq![
            ("priority"@, or_text(int_text_of(m, seq!["priority"@]), "unset"@)),
            ("allow_privileged_container"@, bool_text(privileged)),
            ("user_count"@, decimal(users as int)),
            ("group_count"@, decimal(groups as int)),
        ],
        owner_references: owner_reference_views(m),
        ..base_view(m, "SecurityContextConstraint"@, None)
    }
}

/// A security context constraint.
#[derive(Debug)]
pub struct SecurityContextConstraint {
    manifest: Manifest,
}

impl SecurityContextConstraint {
    /// The manifest the constraint was read from.
    pub closed spec fn manifest_view(self) -> ManifestView {
        self.manifest@
    }

    /// Reads a security context constraint from its manifest.
    pub fn from(manifest: Manifest) -> (r: SecurityContextConstraint)
        ensures
            r.manifest_view() == manifest@,
    {
        SecurityContextConstraint { manifest }
    }
}

impl ResourceV2 for SecurityContextConstraint {
    open spec fn describe(&self) -> SnapshotView {
        scc_view(self.manifest_view())
    }

    fn snapshot(&self) -> (r: ResourceSnapshot) {
        let m = &self.manifest;
        let privileged = match m.at(&keys1("allowPrivilegedContainer")) {
            Some(n) => match n.as_bool() {
                Some(b) => b,
                None => false,
            },
            None => false,
        };
        let users = usize_to_text(count_of(m, &keys1("users")));
        let groups = usize_to_text(count_of(m, &keys1("groups")));
        let priority = match m.at(&keys1("priority")) {
            Some(n) => match n.as_i64() {
                Some(p) => i64_to_text(p),
                None => String::from_str("unset"),
            },
            None => String::from_str("unset"),
        };
        let mut s = base_snapshot(m, "SecurityContextConstraint", &None);
        s.health_status = if privileged {
            HealthStatus::Warning
        } else {
            HealthStatus::Healthy
        };
        if privileged {
            push_text(&mut s.warnings, String::from_str("Privileged containers are allowed"));
        }
        let mut summary = join3("SecurityContextConstraint ", m.name.as_str(), " - ");
        summary.append(users.as_str());
        summary.append(" user(s), ");
        summary.append(groups.as_str());
        summary.append(" group(s)");
        s.summary = Some(summary);
        push_field(&mut s.key_fields, "priority", priority);
        push_field(&mut s.key_fields, "allow_privileged_container", bool_to_text(privileged));
        push_field(&mut s.key_fields, "user_count", users);
        push_field(&mut s.key_fields, "group_count", groups);
        s.owner_references = owner_references_of(m);
        proof {
            let v = scc_view(m@);
            assert(s@.warnings =~= v.warnings);
            assert(s@.key_fields =~= v.key_fields);
        }
        s
    }
}

// ---------------------------------------------------------------------------
// The first view of each kind
// ---------------------------------------------------------------------------

impl Resource for ClusterRole {
    open spec fn failing(&self) -> bool {
        false
    }

    open spec fn warned(&self) -> bool {
        false
    }

    open spec fn flagged(&self) -> Seq<Seq<char>> {
        Seq::empty()
    }

    fn is_error(&self) -> (r: bool) {
        false
    }

    fn is_warning(&self) -> (r: bool) {
        false
    }

    fn conditions(&self) -> (r: Vec<String>) {
        no_names()
    }
}

impl Resource for ClusterRoleBinding {
    open spec fn failing(&self) -> bool {
        false
    }

    open spec fn warned(&self) -> bool {
        false
    }

    open spec fn flagged(&self) -> Seq<Seq<char>> {
        Seq::empty()
    }

    fn is_error(&self) -> (r: bool) {
        false
    }

    fn is_warning(&self) -> (r: bool) {
        false
    }

    fn conditions(&self) -> (r: Vec<String>) {
        no_names()
    }
}

impl Resource for SecurityContextConstraint {
    open spec fn failing(&self) -> bool {
        false
    }

    open spec fn warned(&self) -> bool {
        allows_privileged(self.manifest_view())
    }

    open spec fn flagged(&self) -> Seq<Seq<char>> {
        Seq::empty()
    }

    fn is_error(&self) -> (r: bool) {
        false
    }

    fn is_warning(&self) -> (r: bool) {
        match self.manifest.at(&keys1("allowPrivilegedContainer")) { Some(n) => n.as_bool() == Some(true), None => false }
    }

    fn conditions(&self) -> (r: Vec<String>) {
        no_names()
    }
}

} // verus!
