//! Resources read without a kind of their own: health from their
//! conditions, a few key fields, and the resources they list as
//! components.
use crate::kinds::{
    base_snapshot, base_view, condition_views, conditions_of, metadata_of, metadata_view,
    owner_reference_views, owner_references_of, push_field,
};
use crate::manifest::{
    condition_nodes, doc_at, metadata_str, Manifest, ManifestView,
};
use crate::resources::{
    copy_opt_string, copy_string, join2, join3, or_text, str_eq, Condition, ConditionView,
    HealthStatus, RelationshipType, ResourceLink, ResourceLinkView, ResourceSnapshot, ResourceV2,
    SnapshotView,
};
use crate::text::{lowercase, to_lowercase};
use crate::yaml::{items_view, key_views, lookup, str_of, vec_of, YamlValue, YamlView};
use crate::resources::Resource;
use crate::kinds::{no_names, two_names};
use vstd::prelude::*;

verus! {

/// The condition node has status `s` and a type among `types`.
pub open spec fn condition_in(c: YamlView, types: Seq<Seq<char>>, s: Seq<char>) -> bool {
    str_of(lookup(c, "status"@)) == Some(s) && match str_of(lookup(c, "type"@)) {
        Some(t) => types.contains(t),
        None => false,
    }
}

/// Some condition has status `s` and a type among `types`.
pub open spec fn has_condition_in(m: ManifestView, types: Seq<Seq<char>>, s: Seq<char>) -> bool {
    exists|i: int|
        0 <= i < condition_nodes(m).len() && condition_in(#[trigger] condition_nodes(m)[i], types, s)
}

/// `type is status`, then ` (reason)` and `: message` when not empty.
pub open spec fn condition_message(c: ConditionView) -> Seq<char> {
    c.type_ + " is "@ + c.status + match c.reason {
        Some(r) => if r.len() > 0 {
            " ("@ + r + ")"@
        } else {
            Seq::empty()
        },
        None => Seq::empty(),
    } + match c.message {
        Some(d) => if d.len() > 0 {
            ": "@ + d
        } else {
            Seq::empty()
        },
        None => Seq::empty(),
    }
}

/// A condition that reads as a warning: not Available or Ready, or
/// Progressing.
pub open spec fn warning_condition(c: ConditionView) -> bool {
    ((c.type_ == "Available"@ || c.type_ == "Ready"@) && c.status == "False"@) || (c.type_
        == "Progressing"@ && c.status == "True"@)
}

/// A condition that reads as an error: Degraded, Failing or Failure.
pub open spec fn error_condition(c: ConditionView) -> bool {
    (c.type_ == "Degraded"@ || c.type_ == "Failing"@ || c.type_ == "Failure"@) && c.status
        == "True"@
}

/// The messages of the conditions that meet `p`, in order.
pub open spec fn condition_messages(conds: Seq<ConditionView>, warning: bool) -> Seq<Seq<char>>
    decreases conds.len(),
{
    if conds.len() == 0 {
        Seq::empty()
    } else {
        let init = condition_messages(conds.drop_last(), warning);
        let c = conds.last();
        if (warning && warning_condition(c)) || (!warning && error_condition(c)) {
            init.push(condition_message(c))
        } else {
            init
        }
    }
}

/// The kind named in the manifest, or `Resource`.
pub open spec fn generic_kind(m: ManifestView) -> Seq<char> {
    or_text(str_of(doc_at(m, seq!["kind"@])), "Resource"@)
}

/// The kind a custom resource definition defines.
pub open spec fn crd_kind_of(m: ManifestView) -> Option<Seq<char>> {
    match str_of(doc_at(m, seq!["spec"@, "names"@, "kind"@])) {
        Some(k) => Some(k),
        None => str_of(doc_at(m, seq!["status"@, "acceptedNames"@, "kind"@])),
    }
}

/// An optional key field.
pub open spec fn opt_field(key: Seq<char>, v: Option<Seq<char>>) -> Seq<(Seq<char>, Seq<char>)> {
    match v {
        Some(x) => seq![(key, x)],
        None => Seq::empty(),
    }
}

/// The key fields of a resource read generically.
pub open spec fn generic_key_fields(m: ManifestView) -> Seq<(Seq<char>, Seq<char>)> {
    opt_field("api_version"@, str_of(doc_at(m, seq!["apiVersion"@]))) + if generic_kind(m)
        == "CustomResourceDefinition"@ {
        opt_field("crd_group"@, str_of(doc_at(m, seq!["spec"@, "group"@]))) + opt_field(
            "crd_plural"@,
            str_of(doc_at(m, seq!["spec"@, "names"@, "plural"@])),
        ) + opt_field("crd_kind"@, crd_kind_of(m)) + opt_field(
            "crd_scope"@,
            str_of(doc_at(m, seq!["spec"@, "scope"@])),
        )
    } else {
        Seq::empty()
    }
}

/// Some link of the list names the same resource (kind, name, namespace).
pub open spec fn names_resource(links: Seq<ResourceLinkView>, l: ResourceLinkView) -> bool {
    exists|i: int|
        0 <= i < links.len() && #[trigger] links[i].kind == l.kind && links[i].name == l.name
            && links[i].namespace == l.namespace
}

/// The links after adding the component references in turn: a reference
/// with a kind and a name is added unless a link already names it.
pub open spec fn with_component_refs(links: Seq<ResourceLinkView>, refs: Seq<YamlView>) -> Seq<
    ResourceLinkView,
>
    decreases refs.len(),
{
    if refs.len() == 0 {
        links
    } else {
        let r = refs[0];
        let kind = or_text(str_of(lookup(r, "kind"@)), ""@);
        let name = or_text(str_of(lookup(r, "name"@)), ""@);
        let l = ResourceLinkView {
            kind,
            name,
            namespace: str_of(lookup(r, "namespace"@)),
            relationship: RelationshipType::References,
        };
        let next = if kind.len() == 0 || name.len() == 0 || names_resource(links, l) {
            links
        } else {
            links.push(l)
        };
        with_component_refs(next, refs.drop_first())
    }
}

/// The component references listed under `status.components.refs`.
pub open spec fn component_refs(m: ManifestView) -> Seq<YamlView> {
    match vec_of(doc_at(m, seq!["status"@, "components"@, "refs"@])) {
        Some(v) => v,
        None => Seq::empty(),
    }
}

/// What a resource read generically yields, with links added to it before.
pub open spec fn generic_view(m: ManifestView, added: Seq<ResourceLinkView>) -> SnapshotView {
    let kind = generic_kind(m);
    let ns = metadata_str(m, "namespace"@);
    let conds = condition_views(m);
    SnapshotView {
        health_status: if has_condition_in(
            m,
            seq!["Degraded"@, "Failing"@, "Failure"@],
            "True"@,
        ) {
            HealthStatus::Error
        } else if has_condition_in(m, seq!["Available"@, "Ready"@], "False"@) || has_condition_in(
            m,
            seq!["Progressing"@],
            "True"@,
        ) {
            HealthStatus::Warning
        } else {
            HealthStatus::Healthy
        },
        conditions: conds,
        warnings: condition_messages(conds, true),
        errors: condition_messages(conds, false),
        metadata: metadata_view(m, ns, lowercase(kind) + "__"@ + m.name),
        key_fields: generic_key_fields(m),
        owner_references: owner_reference_views(m),
        relationships: with_component_refs(added, component_refs(m)),
        ..base_view(m, kind, ns)
    }
}

/// A resource read without a kind of its own.
#[derive(Debug)]
pub struct GenericResource {
    manifest: Manifest,
    kind: String,
    namespace: Option<String>,
    relationships: Vec<ResourceLink>,
}

impl GenericResource {
    #[verifier::type_invariant]
    spec fn wf(self) -> bool {
        &&& self.kind@ == generic_kind(self.manifest@)
        &&& self.namespace.deep_view() == metadata_str(self.manifest@, "namespace"@)
    }

    /// The manifest the resource was read from.
    pub closed spec fn manifest_view(self) -> ManifestView {
        self.manifest@
    }

    /// The links added to the resource.
    pub closed spec fn added_links(self) -> Seq<ResourceLinkView> {
        self.relationships.deep_view()
    }

    /// Reads a resource from its manifest.
    pub fn from(manifest: Manifest) -> (r: GenericResource)
        ensures
            r.manifest_view() == manifest@,
            r.added_links() == Seq::<ResourceLinkView>::empty(),
    {
        let keys: [&str; 1] = ["kind"];
        assert(key_views(keys@) =~= seq!["kind"@]);
        let kind = match manifest.at(&keys) {
            Some(k) => match k.as_str() {
                Some(s) => String::from_str(s),
                None => String::from_str("Resource"),
            },
            None => String::from_str("Resource"),
        };
        let namespace = manifest.namespace();
        let relationships: Vec<ResourceLink> = Vec::new();
        assert(relationships.deep_view() =~= Seq::<ResourceLinkView>::empty());
        GenericResource { manifest, kind, namespace, relationships }
    }

    /// The resource's name.
    pub fn name(&self) -> (r: &String)
        ensures
            r@ == self.manifest_view().name,
    {
        &self.manifest.name
    }

    /// The resource's kind.
    pub fn kind(&self) -> (r: &String)
        ensures
            r@ == generic_kind(self.manifest_view()),
    {
        proof {
            use_type_invariant(self);
        }
        &self.kind
    }

    /// Adds links to the resource, after those it has.
    pub fn add_relationships(&mut self, relationships: Vec<ResourceLink>)
        ensures
            final(self).manifest_view() == old(self).manifest_view(),
            final(self).added_links() == old(self).added_links() + relationships.deep_view(),
    {
        proof {
            use_type_invariant(&*self);
        }
        let mut relationships = relationships;
        let ghost add = relationships.deep_view();
        let mut links: Vec<ResourceLink> = Vec::new();
        std::mem::swap(&mut links, &mut self.relationships);
        let ghost before = links.deep_view();
        assert(before == old(self).relationships.deep_view());
        let ghost mut k: int = 0;
        assert(add.skip(0) =~= add);
        while relationships.len() > 0
            invariant
                0 <= k <= add.len(),
                relationships.deep_view() == add.skip(k),
                links.deep_view() =~= before + add.take(k),
            decreases relationships.len(),
        {
            let ghost before_rel = relationships@;
            assert(relationships.deep_view()[0] == add[k]);
            let l = relationships.remove(0);
            assert(relationships@ =~= before_rel.drop_first());
            assert forall|j: int|
                0 <= j < relationships.deep_view().len() implies #[trigger] relationships.deep_view()[j]
                == add.skip(k + 1)[j] by {
                assert(relationships@[j] == before_rel[j + 1]);
                assert(add.skip(k)[j + 1] == before_rel[j + 1].deep_view());
            }
            assert(relationships.deep_view() =~= add.skip(k + 1));
            let ghost lv = l@;
            let ghost before_links = links.deep_view();
            links.push(l);
            assert(links.deep_view() =~= before_links.push(lv));
            assert(links.deep_view() =~= before + add.take(k).push(lv));
            assert(add.take(k + 1) =~= add.take(k).push(lv));
            proof {
                k = k + 1;
            }
        }
        assert(add.take(k) =~= add);
        std::mem::swap(&mut links, &mut self.relationships);
    }

    /// The string at a path of the document.
    fn text_at(&self, keys: &[&str]) -> (r: Option<&str>)
        ensures
            match r {
                Some(s) => str_of(doc_at(self.manifest_view(), key_views(keys@))) == Some(s@),
                None => str_of(doc_at(self.manifest_view(), key_views(keys@))) is None,
            },
    {
        match self.manifest.at(keys) {
            Some(n) => n.as_str(),
            None => None,
        }
    }

    /// The API group a custom resource definition defines.
    pub fn crd_group(&self) -> (r: Option<&str>)
        ensures
            match r {
                Some(s) => str_of(doc_at(self.manifest_view(), seq!["spec"@, "group"@])) == Some(s@),
                None => str_of(doc_at(self.manifest_view(), seq!["spec"@, "group"@])) is None,
            },
    {
        let keys: [&str; 2] = ["spec", "group"];
        assert(key_views(keys@) =~= seq!["spec"@, "group"@]);
        self.text_at(&keys)
    }

    /// The plural name a custom resource definition defines.
    pub fn crd_plural(&self) -> (r: Option<&str>)
        ensures
            match r {
                Some(s) => str_of(doc_at(self.manifest_view(), seq!["spec"@, "names"@, "plural"@]))
                    == Some(s@),
                None => str_of(
                    doc_at(self.manifest_view(), seq!["spec"@, "names"@, "plural"@]),
                ) is None,
            },
    {
        let keys: [&str; 3] = ["spec", "names", "plural"];
        assert(key_views(keys@) =~= seq!["spec"@, "names"@, "plural"@]);
        self.text_at(&keys)
    }

    /// The kind a custom resource definition defines.
    pub fn crd_kind(&self) -> (r: Option<&str>)
        ensures
            match r {
                Some(s) => crd_kind_of(self.manifest_view()) == Some(s@),
                None => crd_kind_of(self.manifest_view()) is None,
            },
    {
        let keys: [&str; 3] = ["spec", "names", "kind"];
        assert(key_views(keys@) =~= seq!["spec"@, "names"@, "kind"@]);
        let accepted: [&str; 3] = ["status", "acceptedNames", "kind"];
        assert(key_views(accepted@) =~= seq!["status"@, "acceptedNames"@, "kind"@]);
        match self.text_at(&keys) {
            Some(k) => Some(k),
            None => self.text_at(&accepted),
        }
    }

    /// The scope of a custom resource definition.
    pub fn crd_scope(&self) -> (r: Option<&str>)
        ensures
            match r {
                Some(s) => str_of(doc_at(self.manifest_view(), seq!["spec"@, "scope"@])) == Some(s@),
                None => str_of(doc_at(self.manifest_view(), seq!["spec"@, "scope"@])) is None,
            },
    {
        let keys: [&str; 2] = ["spec", "scope"];
        assert(key_views(keys@) =~= seq!["spec"@, "scope"@]);
        self.text_at(&keys)
    }
}

/// Some condition node has status `s` and a type among `types`.
fn condition_among(m: &Manifest, types: &[&str], s: &str) -> (r: bool)
    ensures
        r == has_condition_in(m@, key_views(types@), s@),
{
    let keys: [&str; 2] = ["status", "conditions"];
    assert(key_views(keys@) =~= seq!["status"@, "conditions"@]);
    let ghost tv = key_views(types@);
    match m.at(&keys) {
        Some(node) => match node.as_vec() {
            Some(conds) => {
                let mut i: usize = 0;
                while i < conds.len()
                    invariant
                        i <= conds.len(),
                        items_view(conds@) == condition_nodes(m@),
                        tv == key_views(types@),
                        forall|j: int|
                            0 <= j < i ==> !condition_in(#[trigger] condition_nodes(m@)[j], tv, s@),
                    decreases conds.len() - i,
                {
                    let c = &conds[i];
                    assert(condition_nodes(m@)[i as int] == c@);
                    let status_ok = match c.get("status") {
                        Some(v) => match v.as_str() {
                            Some(t) => str_eq(t, s),
                            None => false,
                        },
                        None => false,
                    };
                    let type_ok = match c.get("type") {
                        Some(v) => match v.as_str() {
                            Some(t) => {
                                let mut found = false;
                                let mut j: usize = 0;
                                while j < types.len()
                                    invariant
                                        j <= types.len(),
                                        tv == key_views(types@),
                                        found == exists|q: int| 0 <= q < j && tv[q] == t@,
                                    decreases types.len() - j,
                                {
                                    if str_eq(types[j], t) {
                                        found = true;
                                    }
                                    assert(tv[j as int] == types@[j as int]@);
                                    j = j + 1;
                                }
                                proof {
                                    if tv.contains(t@) {
                                        let q = choose|q: int| 0 <= q < tv.len() && tv[q] == t@;
                                        assert(q < j);
                                    }
                                }
                                found
                            },
                            None => false,
                        },
                        None => false,
                    };
                    if status_ok && type_ok {
                        assert(condition_in(condition_nodes(m@)[i as int], tv, s@));
                        return true;
                    }
                    i = i + 1;
                }
                false
            },
            None => false,
        },
        None => false,
    }
}

/// The condition's message: `type is status`, then reason and message.
fn format_condition_message(c: &Condition) -> (r: String)
    ensures
        r@ == condition_message(c@),
{
    proof {
        reveal_strlit("");
    }
    let mut r = join3(c.type_.as_str(), " is ", c.status.as_str());
    match &c.reason {
        Some(reason) => {
            if reason.unicode_len() > 0 {
                r.append(" (");
                r.append(reason.as_str());
                r.append(")");
            }
        },
        None => {},
    }
    match &c.message {
        Some(detail) => {
            if detail.unicode_len() > 0 {
                r.append(": ");
                r.append(detail.as_str());
            }
        },
        None => {},
    }
    r
}

/// The messages of the warning (or error) conditions.
fn messages_of(conds: &Vec<Condition>, warning: bool) -> (r: Vec<String>)
    ensures
        r.deep_view() == condition_messages(conds.deep_view(), warning),
{
    let ghost cv = conds.deep_view();
    let mut out: Vec<String> = Vec::new();
    let mut i: usize = 0;
    assert(cv.take(0) =~= Seq::<ConditionView>::empty());
    while i < conds.len()
        invariant
            i <= conds.len(),
            cv == conds.deep_view(),
            out.deep_view() == condition_messages(cv.take(i as int), warning),
        decreases conds.len() - i,
    {
        assert(cv.take(i + 1).drop_last() =~= cv.take(i as int));
        let c = &conds[i];
        assert(cv[i as int] == c@);
        let t = c.type_.as_str();
        let st = c.status.as_str();
        let is_warning = ((str_eq(t, "Available") || str_eq(t, "Ready")) && str_eq(st, "False")) || (
        str_eq(t, "Progressing") && str_eq(st, "True"));
        let is_error = (str_eq(t, "Degraded") || str_eq(t, "Failing") || str_eq(t, "Failure"))
            && str_eq(st, "True");
        let ghost before = out.deep_view();
        if (warning && is_warning) || (!warning && is_error) {
            let msg = format_condition_message(c);
            let ghost mv = msg@;
            out.push(msg);
            assert(out.deep_view() =~= before.push(mv));
        }
        i = i + 1;
    }
    assert(cv.take(conds.len() as int) =~= cv);
    out
}

/// Some link of the list names the same resource.
fn link_named(links: &Vec<ResourceLink>, kind: &str, name: &str, namespace: &Option<String>) -> (r:
    bool)
    ensures
        r == names_resource(
            links.deep_view(),
            ResourceLinkView {
                kind: kind@,
                name: name@,
                namespace: namespace.deep_view(),
                relationship: RelationshipType::References,
            },
        ),
{
    let mut i: usize = 0;
    while i < links.len()
        invariant
            i <= links.len(),
            forall|j: int|
                0 <= j < i ==> !(#[trigger] links.deep_view()[j].kind == kind@
                    && links.deep_view()[j].name == name@ && links.deep_view()[j].namespace
                    == namespace.deep_view()),
        decreases links.len() - i,
    {
        let l = &links[i];
        assert(links.deep_view()[i as int] == l@);
        let same_ns = match (&l.namespace, namespace) {
            (Some(a), Some(b)) => str_eq(a.as_str(), b.as_str()),
            (None, None) => true,
            _ => false,
        };
        if str_eq(l.kind.as_str(), kind) && str_eq(l.name.as_str(), name) && same_ns {
            assert(links.deep_view()[i as int].kind == kind@);
            return true;
        }
        i = i + 1;
    }
    false
}

/// The links of the resource: those added, then its component references.
fn relationships_of(added: &Vec<ResourceLink>, m: &Manifest) -> (r: Vec<ResourceLink>)
    ensures
        r.deep_view() == with_component_refs(added.deep_view(), component_refs(m@)),
{
    proof {
        reveal_strlit("");
    }
    let mut links: Vec<ResourceLink> = Vec::new();
    let mut a: usize = 0;
    while a < added.len()
        invariant
            a <= added.len(),
            links.deep_view() =~= added.deep_view().take(a as int),
        decreases added.len() - a,
    {
        let l = &added[a];
        let copy = ResourceLink {
            kind: copy_string(&l.kind),
            name: copy_string(&l.name),
            namespace: copy_opt_string(&l.namespace),
            relationship: l.relationship,
        };
        let ghost before = links.deep_view();
        assert(copy@ == added.deep_view()[a as int]);
        links.push(copy);
        assert(links.deep_view() =~= before.push(copy@));
        a = a + 1;
    }
    assert(added.deep_view().take(added.len() as int) =~= added.deep_view());
    let keys: [&str; 3] = ["status", "components", "refs"];
    assert(key_views(keys@) =~= seq!["status"@, "components"@, "refs"@]);
    match m.at(&keys) {
        Some(node) => match node.as_vec() {
            Some(refs) => {
                let ghost rv = items_view(refs@);
                let mut i: usize = 0;
                assert(rv.skip(0) =~= rv);
                while i < refs.len()
                    invariant
                        i <= refs.len(),
                        rv == items_view(refs@),
                        rv == component_refs(m@),
                        with_component_refs(added.deep_view(), rv) == with_component_refs(
                            links.deep_view(),
                            rv.skip(i as int),
                        ),
                    decreases refs.len() - i,
                {
                    let ghost rest = rv.skip(i as int);
                    assert(rest[0] == refs@[i as int]@);
                    assert(rest.drop_first() =~= rv.skip(i + 1));
                    let r = &refs[i];
                    let kind = match r.get("kind") {
                        Some(v) => match v.as_str() {
                            Some(t) => t,
                            None => "",
                        },
                        None => "",
                    };
                    let name = match r.get("name") {
                        Some(v) => match v.as_str() {
                            Some(t) => t,
                            None => "",
                        },
                        None => "",
                    };
                    let namespace = match r.get("namespace") {
                        Some(v) => match v.as_str() {
                            Some(t) => Some(String::from_str(t)),
                            None => None,
                        },
                        None => None,
                    };
                    if kind.unicode_len() > 0 && name.unicode_len() > 0 && !link_named(
                        &links,
                        kind,
                        name,
                        &namespace,
                    ) {
                        let l = ResourceLink {
                            kind: String::from_str(kind),
                            name: String::from_str(name),
                            namespace,
                            relationship: RelationshipType::References,
                        };
                        let ghost before = links.deep_view();
                        links.push(l);
                        assert(links.deep_view() =~= before.push(l@));
                    }
                    i = i + 1;
                }
                assert(rv.skip(refs.len() as int) =~= Seq::<YamlView>::empty());
            },
            None => {},
        },
        None => {},
    }
    links
}

impl ResourceV2 for GenericResource {
    open spec fn describe(&self) -> SnapshotView {
        generic_view(self.manifest_view(), self.added_links())
    }

    fn snapshot(&self) -> (r: ResourceSnapshot) {
        proof {
            use_type_invariant(self);
            reveal_strlit("");
        }
        let m = &self.manifest;
        let mut s = base_snapshot(m, self.kind.as_str(), &self.namespace);
        let degraded: [&str; 3] = ["Degraded", "Failing", "Failure"];
        assert(key_views(degraded@) =~= seq!["Degraded"@, "Failing"@, "Failure"@]);
        let unavailable: [&str; 2] = ["Available", "Ready"];
        assert(key_views(unavailable@) =~= seq!["Available"@, "Ready"@]);
        let progressing: [&str; 1] = ["Progressing"];
        assert(key_views(progressing@) =~= seq!["Progressing"@]);
        s.health_status = if condition_among(m, &degraded, "True") {
            HealthStatus::Error
        } else if condition_among(m, &unavailable, "False") || condition_among(
            m,
            &progressing,
            "True",
        ) {
            HealthStatus::Warning
        } else {
            HealthStatus::Healthy
        };
        s.conditions = conditions_of(m);
        s.warnings = messages_of(&s.conditions, true);
        s.errors = messages_of(&s.conditions, false);
        let lower = to_lowercase(self.kind.as_str());
        let fallback = join3(lower.as_str(), "__", m.name.as_str());
        s.metadata = metadata_of(m, &self.namespace, &fallback);
        let k_api: [&str; 1] = ["apiVersion"];
        assert(key_views(k_api@) =~= seq!["apiVersion"@]);
        match self.text_at(&k_api) {
            Some(v) => push_field(&mut s.key_fields, "api_version", String::from_str(v)),
            None => {},
        }
        let ghost first = s.key_fields.deep_view();
        if str_eq(self.kind.as_str(), "CustomResourceDefinition") {
            match self.crd_group() {
                Some(v) => push_field(&mut s.key_fields, "crd_group", String::from_str(v)),
                None => {},
            }
            match self.crd_plural() {
                Some(v) => push_field(&mut s.key_fields, "crd_plural", String::from_str(v)),
                None => {},
            }
            match self.crd_kind() {
                Some(v) => push_field(&mut s.key_fields, "crd_kind", String::from_str(v)),
                None => {},
            }
            match self.crd_scope() {
                Some(v) => push_field(&mut s.key_fields, "crd_scope", String::from_str(v)),
                None => {},
            }
        }
        s.owner_references = owner_references_of(m);
        s.relationships = relationships_of(&self.relationships, m);
        proof {
            let v = generic_view(m@, self.added_links());
            assert(s@.key_fields =~= v.key_fields);
            assert(s@.metadata == v.metadata);
        }
        s
    }
}

// ---------------------------------------------------------------------------
// The first view of each kind
// ---------------------------------------------------------------------------

impl Resource for GenericResource {
    open spec fn failing(&self) -> bool {
        false
    }

    open spec fn warned(&self) -> bool {
        false
    }

    open spec fn flagged(&self) -> Seq<Seq<char>> {
        Seq::empty()
    }

    fn is_error(&self) -> (r: bool) {
        false
    }

    fn is_warning(&self) -> (r: bool) {
        false
    }

    fn conditions(&self) -> (r: Vec<String>) {
        no_names()
    }
}

} // verus!
