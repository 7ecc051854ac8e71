//! Networking resources: routes, services, endpoints, ingress controllers
//! and network policies.
use crate::kinds::cluster::{bool_text, join_texts, joined};
use crate::kinds::{
    base_snapshot, base_view, condition_views, conditions_of, field_if, int_field, int_or, keys1,
    keys2, keys3, list_at, list_of, msg_if, push_field, push_field_if, push_text, ratio,
    ratio_text, text_at, text_at_or, text_of,
};
use crate::manifest::{
    str_node, str_node_or_empty, condition_of, doc_at, manifest_has_condition_status, metadata_str, string_pairs, Manifest,
    ManifestView,
};
use crate::order::{lemma_is_sorted_texts, sort_texts, sorted_texts};
use crate::report::any_condition;
use crate::resources::{
    copy_string, join2, join3, or_text, str_eq, text_or, Condition, ConditionView, HealthStatus,
    ResourceSnapshot, ResourceV2, SnapshotView,
};
use crate::text::{bool_to_text, decimal, i64_to_text, u128_to_text, usize_to_text};
use crate::yaml::{
    entries_view, hash_of, i64_of, items_view, key_views, lookup, str_of, vec_of, YamlValue,
    YamlView,
};
use crate::resources::Resource;
use crate::kinds::{no_names, two_names};
use vstd::prelude::*;

verus! {

/// A condition node as a resource condition.
pub open spec fn node_condition(c: YamlView) -> ConditionView {
    let t = condition_of(c);
    ConditionView { type_: t.0, status: t.1, reason: t.2, message: t.3, last_transition: None }
}

/// The items of the list under `key` of a node, or none.
pub open spec fn items_of(v: YamlView, key: Seq<char>) -> Seq<YamlView> {
    match vec_of(lookup(v, key)) {
        Some(items) => items,
        None => Seq::empty(),
    }
}

/// A condition node as a resource condition.
fn condition_from_node(c: &YamlValue) -> (r: Condition)
    ensures
        r@ == node_condition(c@),
{
    let type_ = str_node_or_empty(c.get("type"));
    let status = str_node_or_empty(c.get("status"));
    let reason = str_node(c.get("reason"));
    let message = str_node(c.get("message"));
    Condition { type_, status, reason, message, last_transition: None }
}

// ---------------------------------------------------------------------------
// Route
// ---------------------------------------------------------------------------
/// The condition nodes of all ingress entries, in order.
pub open spec fn ingress_conditions(ingress: Seq<YamlView>) -> Seq<YamlView>
    decreases ingress.len(),
{
    if ingress.len() == 0 {
        Seq::empty()
    } else {
        ingress_conditions(ingress.drop_last()) + items_of(ingress.last(), "conditions"@)
    }
}

/// The conditions of a route: those of its ingress entries.
pub open spec fn route_conditions(m: ManifestView) -> Seq<ConditionView> {
    let ingress = match vec_of(doc_at(m, seq!["status"@, "ingress"@])) {
        Some(v) => v,
        None => Seq::empty(),
    };
    ingress_conditions(ingress).map_values(|c: YamlView| node_condition(c))
}

/// The admission failures with a message.
pub open spec fn admission_failures(conds: Seq<ConditionView>) -> Seq<Seq<char>>
    decreases conds.len(),
{
    if conds.len() == 0 {
        Seq::empty()
    } else {
        let init = admission_failures(conds.drop_last());
        let c = conds.last();
        match c.message {
            Some(msg) => if c.type_ == "Admitted"@ && c.status == "False"@ {
                init.push("Admission failed: "@ + msg)
            } else {
                init
            },
            None => init,
        }
    }
}

/// The target port of a route: a string, or an integer in decimal.
pub open spec fn route_port(m: ManifestView) -> Option<Seq<char>> {
    let tp = doc_at(m, seq!["spec"@, "port"@, "targetPort"@]);
    match str_of(tp) {
        Some(s) => Some(s),
        None => match i64_of(tp) {
            Some(i) => Some(decimal(i as int)),
            None => None,
        },
    }
}

/// What a route yields.
pub open spec fn route_view(m: ManifestView) -> SnapshotView {
    let conds = route_conditions(m);
    let admitted = any_condition(conds, "Admitted"@, "True"@);
    let host = text_of(m, seq!["spec"@, "host"@]);
    let service = text_of(m, seq!["spec"@, "to"@, "name"@]);
    SnapshotView {
        health_status: if admitted {
            HealthStatus::Healthy
        } else {
            HealthStatus::Error
        },
        conditions: conds,
        errors: if admitted {
            Seq::empty()
        } else {
            seq!["Route is not admitted - traffic cannot reach this route"@] + admission_failures(
                conds,
            )
        },
        summary: Some(
            "Route "@ + m.name + " - Host: "@ + or_text(host, "N/A"@) + " - Service: "@ + or_text(
                service,
                "N/A"@,
            ) + " - Admitted: "@ + bool_text(admitted),
        ),
        key_fields: field_if("host"@, host) + field_if("path"@, text_of(m, seq!["spec"@, "path"@]))
            + field_if("tls_termination"@, text_of(m, seq!["spec"@, "tls"@, "termination"@]))
            + field_if("service_name"@, service) + field_if("service_port"@, route_port(m)) + seq![
            ("admitted"@, bool_text(admitted)),
        ],
        ..base_view(m, "Route"@, metadata_str(m, "namespace"@))
    }
}

/// A route.
#[derive(Debug)]
pub struct Route {
    manifest: Manifest,
}

impl Route {
    /// The manifest the route was read from.
    pub closed spec fn manifest_view(self) -> ManifestView {
        self.manifest@
    }

    /// Reads a route from its manifest.
    pub fn from(manifest: Manifest) -> (r: Route)
        ensures
            r.manifest_view() == manifest@,
    {
        Route { manifest }
    }
}

/// The conditions of a route's ingress entries.
fn route_conditions_of(m: &Manifest) -> (r: Vec<Condition>)
    ensures
        r.deep_view() == route_conditions(m@),
{
    let ghost f = |c: YamlView| node_condition(c);
    let mut out: Vec<Condition> = Vec::new();
    match m.at(&keys2("status", "ingress")) {
        Some(node) => match node.as_vec() {
            Some(ingress) => {
                let ghost iv = items_view(ingress@);
                let mut i: usize = 0;
                assert(iv.take(0) =~= Seq::<YamlView>::empty());
                assert(Seq::<YamlView>::empty().map_values(f) =~= Seq::<ConditionView>::empty());
                while i < ingress.len()
                    invariant
                        i <= ingress.len(),
                        iv == items_view(ingress@),
                        out.deep_view() =~= ingress_conditions(iv.take(i as int)).map_values(f),
                    decreases ingress.len() - i,
                {
                    assert(iv.take(i + 1).drop_last() =~= iv.take(i as int));
                    assert(iv[i as int] == ingress@[i as int]@);
                    let ghost start = ingress_conditions(iv.take(i as int));
                    match ingress[i].get("conditions") {
                        Some(cn) => match cn.as_vec() {
                            Some(conds) => {
                                let ghost cv = items_view(conds@);
                                let mut j: usize = 0;
                                assert(cv.take(0) =~= Seq::<YamlView>::empty());
                                while j < conds.len()
                                    invariant
                                        j <= conds.len(),
                                        cv == items_view(conds@),
                                        out.deep_view() =~= (start + cv.take(j as int)).map_values(
                                            f,
                                        ),
                                    decreases conds.len() - j,
                                {
                                    assert(cv[j as int] == conds@[j as int]@);
                                    let c = condition_from_node(&conds[j]);
                                    let ghost before = out.deep_view();
                                    out.push(c);
                                    assert(out.deep_view() =~= before.push(c@));
                                    assert(start + cv.take(j + 1) =~= (start + cv.take(
                                        j as int,
                                    )).push(cv[j as int]));
                                    j = j + 1;
                                }
                                assert(cv.take(conds.len() as int) =~= cv);
                            },
                            None => {
                                assert(start + Seq::<YamlView>::empty() =~= start);
                            },
                        },
                        None => {
                            assert(start + Seq::<YamlView>::empty() =~= start);
                        },
                    }
                    i = i + 1;
                }
                assert(iv.take(ingress.len() as int) =~= iv);
            },
            None => {},
        },
        None => {},
    }
    out
}

/// Some condition has type `t` and status `s`.
fn any_condition_of(conds: &Vec<Condition>, t: &str, s: &str) -> (r: bool)
    ensures
        r == any_condition(conds.deep_view(), t@, s@),
{
    let mut i: usize = 0;
    while i < conds.len()
        invariant
            i <= conds.len(),
            forall|j: int|
                0 <= j < i ==> !(conds.deep_view()[j].type_ == t@ && conds.deep_view()[j].status
                    == s@),
        decreases conds.len() - i,
    {
        assert(conds.deep_view()[i as int] == conds@[i as int]@);
        if str_eq(conds[i].type_.as_str(), t) && str_eq(conds[i].status.as_str(), s) {
            assert(conds.deep_view()[i as int].type_ == t@);
            return true;
        }
        i = i + 1;
    }
    false
}

/// The admission failure messages.
fn admission_failures_of(conds: &Vec<Condition>) -> (r: Vec<String>)
    ensures
        r.deep_view() == admission_failures(conds.deep_view()),
{
    let ghost cv = conds.deep_view();
    let mut out: Vec<String> = Vec::new();
    let mut i: usize = 0;
    assert(cv.take(0) =~= Seq::<ConditionView>::empty());
    while i < conds.len()
        invariant
            i <= conds.len(),
            cv == conds.deep_view(),
            out.deep_view() == admission_failures(cv.take(i as int)),
        decreases conds.len() - i,
    {
        assert(cv.take(i + 1).drop_last() =~= cv.take(i as int));
        let c = &conds[i];
        assert(cv[i as int] == c@);
        match &c.message {
            Some(msg) => {
                if str_eq(c.type_.as_str(), "Admitted") && str_eq(c.status.as_str(), "False") {
                    push_text(&mut out, join2("Admission failed: ", msg.as_str()));
                }
            },
            None => {},
        }
        i = i + 1;
    }
    assert(cv.take(conds.len() as int) =~= cv);
    out
}

impl ResourceV2 for Route {
    open spec fn describe(&self) -> SnapshotView {
        route_view(self.manifest_view())
    }

    fn snapshot(&self) -> (r: ResourceSnapshot) {
        let m = &self.manifest;
        let namespace = m.namespace();
        let conds = route_conditions_of(m);
        let admitted = any_condition_of(&conds, "Admitted", "True");
        let host = text_at(m, &keys2("spec", "host"));
        let service = text_at(m, &keys3("spec", "to", "name"));
        let mut s = base_snapshot(m, "Route", &namespace);
        s.health_status = if admitted {
            HealthStatus::Healthy
        } else {
            HealthStatus::Error
        };
        if !admitted {
            push_text(
                &mut s.errors,
                String::from_str("Route is not admitted - traffic cannot reach this route"),
            );
            let mut failures = admission_failures_of(&conds);
            let ghost before = s.errors.deep_view();
            let ghost fv = failures.deep_view();
            s.errors.append(&mut failures);
            assert(s.errors.deep_view() =~= before + fv);
        }
        let mut summary = join3("Route ", m.name.as_str(), " - Host: ");
        summary.append(text_or(&host, "N/A"));
        summary.append(" - Service: ");
        summary.append(text_or(&service, "N/A"));
        summary.append(" - Admitted: ");
        summary.append(bool_to_text(admitted).as_str());
        s.summary = Some(summary);
        push_field_if(&mut s.key_fields, "host", &host);
        push_field_if(&mut s.key_fields, "path", &text_at(m, &keys2("spec", "path")));
        push_field_if(
            &mut s.key_fields,
            "tls_termination",
            &text_at(m, &keys3("spec", "tls", "termination")),
        );
        push_field_if(&mut s.key_fields, "service_name", &service);
        let tp = m.at(&keys3("spec", "port", "targetPort"));
        let port = match tp {
            Some(n) => match n.as_str() {
                Some(t) => Some(String::from_str(t)),
                None => match n.as_i64() {
                    Some(i) => Some(i64_to_text(i)),
                    None => None,
                },
            },
            None => None,
        };
        push_field_if(&mut s.key_fields, "service_port", &port);
        push_field(&mut s.key_fields, "admitted", bool_to_text(admitted));
        s.conditions = conds;
        proof {
            let v = route_view(m@);
            assert(s@.errors =~= v.errors);
            assert(s@.key_fields =~= v.key_fields);
        }
        s
    }
}

// ---------------------------------------------------------------------------
// Service
// ---------------------------------------------------------------------------
/// A port entry as `port/protocol`, with ` (name)` when named.
pub open spec fn port_text(p: YamlView) -> Seq<char> {
    let num = match i64_of(lookup(p, "port"@)) {
        Some(i) => i,
        None => 0,
    };
    let protocol = or_text(str_of(lookup(p, "protocol"@)), "TCP"@);
    let name = or_text(str_of(lookup(p, "name"@)), ""@);
    decimal(num as int) + "/"@ + protocol + if name.len() > 0 {
        " ("@ + name + ")"@
    } else {
        Seq::empty()
    }
}

/// The `key=value` texts of a list of pairs.
pub open spec fn pair_texts(pairs: Seq<(Seq<char>, Seq<char>)>) -> Seq<Seq<char>> {
    pairs.map_values(|p: (Seq<char>, Seq<char>)| p.0 + "="@ + p.1)
}

/// The string pairs of the mapping at a path, or none.
pub open spec fn pairs_at(m: ManifestView, keys: Seq<Seq<char>>) -> Seq<(Seq<char>, Seq<char>)> {
    match hash_of(doc_at(m, keys)) {
        Some(h) => string_pairs(h),
        None => Seq::empty(),
    }
}

/// What a service yields.
pub open spec fn service_view(m: ManifestView) -> SnapshotView {
    let service_type = or_text(text_of(m, seq!["spec"@, "type"@]), "ClusterIP"@);
    let cluster_ip = text_of(m, seq!["spec"@, "clusterIP"@]);
    let ports = match vec_of(doc_at(m, seq!["spec"@, "ports"@])) {
        Some(v) => v.map_values(|p: YamlView| port_text(p)),
        None => Seq::empty(),
    };
    let selector = pairs_at(m, seq!["spec"@, "selector"@]);
    SnapshotView {
        health_status: if selector.len() == 0 {
            HealthStatus::Warning
        } else {
            HealthStatus::Healthy
        },
        conditions: condition_views(m),
        warnings: msg_if(
            selector.len() == 0,
            "Service has no selector - will not automatically route to pods"@,
        ),
        summary: Some(
            "Service "@ + m.name + " - Type: "@ + service_type + " - ClusterIP: "@ + or_text(
                cluster_ip,
                "None"@,
            ) + " - Ports: "@ + decimal(ports.len() as int),
        ),
        key_fields: seq![("type"@, service_type)] + field_if("cluster_ip"@, cluster_ip) + seq![
            ("ports"@, joined(ports, ", "@)),
            ("selector"@, joined(pair_texts(selector), ", "@)),
        ],
        ..base_view(m, "Service"@, metadata_str(m, "namespace"@))
    }
}

/// A port entry as text.
fn port_text_of(p: &YamlValue) -> (r: String)
    ensures
        r@ == port_text(p@),
{
    proof {
        reveal_strlit("");
    }
    let num = match p.get("port") {
        Some(v) => match v.as_i64() {
            Some(i) => i,
            None => 0,
        },
        None => 0,
    };
    let protocol = match p.get("protocol") {
        Some(v) => match v.as_str() {
            Some(t) => t,
            None => "TCP",
        },
        None => "TCP",
    };
    let name = match p.get("name") {
        Some(v) => match v.as_str() {
            Some(t) => t,
            None => "",
        },
        None => "",
    };
    let n = i64_to_text(num);
    let mut r = join3(n.as_str(), "/", protocol);
    if name.unicode_len() > 0 {
        r.append(" (");
        r.append(name);
        r.append(")");
    }
    r
}

/// The port texts of the port list at a path.
fn port_texts_at(m: &Manifest, keys: &[&str]) -> (r: Vec<String>)
    ensures
        r.deep_view() == match vec_of(doc_at(m@, key_views(keys@))) {
            Some(v) => v.map_values(|p: YamlView| port_text(p)),
            None => Seq::empty(),
        },
{
    let mut out: Vec<String> = Vec::new();
    match m.at(keys) {
        Some(node) => match node.as_vec() {
            Some(ports) => {
                let ghost pv = items_view(ports@);
                let mut i: usize = 0;
                while i < ports.len()
                    invariant
                        i <= ports.len(),
                        pv == items_view(ports@),
                        out.deep_view() =~= pv.take(i as int).map_values(|p: YamlView| port_text(p)),
                    decreases ports.len() - i,
                {
                    assert(pv[i as int] == ports@[i as int]@);
                    push_text(&mut out, port_text_of(&ports[i]));
                    assert(pv.take(i + 1).map_values(|p: YamlView| port_text(p)) =~= pv.take(
                        i as int,
                    ).map_values(|p: YamlView| port_text(p)).push(port_text(pv[i as int])));
                    i = i + 1;
                }
                assert(pv.take(ports.len() as int) =~= pv);
            },
            None => {},
        },
        None => {},
    }
    out
}

/// The string pairs of the mapping at a path.
fn pairs_of(m: &Manifest, keys: &[&str]) -> (r: Vec<(String, String)>)
    ensures
        r.deep_view() == pairs_at(m@, key_views(keys@)),
{
    let mut out: Vec<(String, String)> = Vec::new();
    match m.at(keys) {
        Some(node) => match node.as_hash() {
            Some(entries) => {
                let ghost ev = entries_view(entries@);
                let mut i: usize = 0;
                assert(ev.take(0) =~= Seq::<(YamlView, YamlView)>::empty());
                while i < entries.len()
                    invariant
                        i <= entries.len(),
                        ev == entries_view(entries@),
                        out.deep_view() == string_pairs(ev.take(i as int)),
                    decreases entries.len() - i,
                {
                    assert(ev.take(i + 1).drop_last() =~= ev.take(i as int));
                    assert(ev[i as int] == (entries@[i as int].0@, entries@[i as int].1@));
                    let ghost before = out.deep_view();
                    match (&entries[i].0, &entries[i].1) {
                        (YamlValue::String(k), YamlValue::String(v)) => {
                            out.push((copy_string(k), copy_string(v)));
                            assert(out.deep_view() =~= before.push((k@, v@)));
                        },
                        _ => {},
                    }
                    i = i + 1;
                }
                assert(ev.take(entries.len() as int) =~= ev);
            },
            None => {},
        },
        None => {},
    }
    out
}

/// The `key=value` texts of pairs.
fn pair_texts_of(pairs: &Vec<(String, String)>) -> (r: Vec<String>)
    ensures
        r.deep_view() == pair_texts(pairs.deep_view()),
{
    let mut out: Vec<String> = Vec::new();
    let mut i: usize = 0;
    while i < pairs.len()
        invariant
            i <= pairs.len(),
            out.deep_view() =~= pair_texts(pairs.deep_view().take(i as int)),
        decreases pairs.len() - i,
    {
        assert(pairs.deep_view()[i as int] == (pairs@[i as int].0@, pairs@[i as int].1@));
        let mut t = join3(pairs[i].0.as_str(), "=", pairs[i].1.as_str());
        push_text(&mut out, t);
        assert(pair_texts(pairs.deep_view().take(i + 1)) =~= pair_texts(
            pairs.deep_view().take(i as int),
        ).push(pairs.deep_view()[i as int].0 + "="@ + pairs.deep_view()[i as int].1));
        i = i + 1;
    }
    assert(pairs.deep_view().take(pairs.len() as int) =~= pairs.deep_view());
    out
}

/// A service.
#[derive(Debug)]
pub struct Service {
    manifest: Manifest,
}

impl Service {
    /// The manifest the service was read from.
    pub closed spec fn manifest_view(self) -> ManifestView {
        self.manifest@
    }

    /// Reads a service from its manifest.
    pub fn from(manifest: Manifest) -> (r: Service)
        ensures
            r.manifest_view() == manifest@,
    {
        Service { manifest }
    }
}

impl ResourceV2 for Service {
    open spec fn describe(&self) -> SnapshotView {
        service_view(self.manifest_view())
    }

    fn snapshot(&self) -> (r: ResourceSnapshot) {
        let m = &self.manifest;
        let namespace = m.namespace();
        let service_type = text_at_or(m, &keys2("spec", "type"), "ClusterIP");
        let cluster_ip = text_at(m, &keys2("spec", "clusterIP"));
        let ports = port_texts_at(m, &keys2("spec", "ports"));
        let selector = pairs_of(m, &keys2("spec", "selector"));
        let mut s = base_snapshot(m, "Service", &namespace);
        s.health_status = if selector.len() == 0 {
            HealthStatus::Warning
        } else {
            HealthStatus::Healthy
        };
        s.conditions = conditions_of(m);
        if selector.len() == 0 {
            push_text(
                &mut s.warnings,
                String::from_str("Service has no selector - will not automatically route to pods"),
            );
        }
        let mut summary = join3("Service ", m.name.as_str(), " - Type: ");
        summary.append(service_type.as_str());
        summary.append(" - ClusterIP: ");
        summary.append(text_or(&cluster_ip, "None"));
        summary.append(" - Ports: ");
        summary.append(usize_to_text(ports.len()).as_str());
        s.summary = Some(summary);
        push_field(&mut s.key_fields, "type", copy_string(&service_type));
        push_field_if(&mut s.key_fields, "cluster_ip", &cluster_ip);
        push_field(&mut s.key_fields, "ports", join_texts(&ports, ", "));
        push_field(&mut s.key_fields, "selector", join_texts(&pair_texts_of(&selector), ", "));
        proof {
            let v = service_view(m@);
            assert(s@.warnings =~= v.warnings);
            assert(s@.key_fields =~= v.key_fields);
        }
        s
    }
}

// ---------------------------------------------------------------------------
// Endpoints
// ---------------------------------------------------------------------------
/// The items of the list at a path of the manifest's document, or none.
pub open spec fn items_at(m: ManifestView, keys: Seq<Seq<char>>) -> Seq<YamlView> {
    match vec_of(doc_at(m, keys)) {
        Some(v) => v,
        None => Seq::empty(),
    }
}

/// The total length of the lists under `key` of the subsets.
pub open spec fn address_count(subsets: Seq<YamlView>, key: Seq<char>) -> nat
    decreases subsets.len(),
{
    if subsets.len() == 0 {
        0
    } else {
        address_count(subsets.drop_last(), key) + items_of(subsets.last(), key).len()
    }
}

/// The port texts of all subsets, in order, repeats included.
pub open spec fn subset_port_texts(subsets: Seq<YamlView>) -> Seq<Seq<char>>
    decreases subsets.len(),
{
    if subsets.len() == 0 {
        Seq::empty()
    } else {
        subset_port_texts(subsets.drop_last()) + items_of(subsets.last(), "ports"@).map_values(
            |p: YamlView| port_text(p),
        )
    }
}

/// `acc` with `x` at the end unless it already holds it.
pub open spec fn add_unique(acc: Seq<Seq<char>>, x: Seq<char>) -> Seq<Seq<char>> {
    if acc.contains(x) {
        acc
    } else {
        acc.push(x)
    }
}

/// `acc` with each of `items` added in turn unless already there.
pub open spec fn add_all_unique(acc: Seq<Seq<char>>, items: Seq<Seq<char>>) -> Seq<Seq<char>>
    decreases items.len(),
{
    if items.len() == 0 {
        acc
    } else {
        add_unique(add_all_unique(acc, items.drop_last()), items.last())
    }
}

/// Adding two runs of items one after the other adds their concatenation.
pub proof fn lemma_add_all_unique_concat(acc: Seq<Seq<char>>, a: Seq<Seq<char>>, b: Seq<Seq<char>>)
    ensures
        add_all_unique(acc, a + b) == add_all_unique(add_all_unique(acc, a), b),
    decreases b.len(),
{
    if b.len() == 0 {
        assert(a + b =~= a);
    } else {
        assert((a + b).drop_last() =~= a + b.drop_last());
        lemma_add_all_unique_concat(acc, a, b.drop_last());
    }
}

/// No text occurs twice in the result when none did in `acc`.
pub proof fn lemma_add_all_unique_distinct(acc: Seq<Seq<char>>, items: Seq<Seq<char>>)
    requires
        acc.no_duplicates(),
    ensures
        add_all_unique(acc, items).no_duplicates(),
        forall|i: int| 0 <= i < items.len() ==> add_all_unique(acc, items).contains(#[trigger] items[i]),
    decreases items.len(),
{
    if items.len() > 0 {
        let init = items.drop_last();
        lemma_add_all_unique_distinct(acc, init);
        let prev = add_all_unique(acc, init);
        let x = items.last();
        if !prev.contains(x) {
            assert forall|i: int, j: int| 0 <= i < j < prev.push(x).len() implies prev.push(x)[i]
                != prev.push(x)[j] by {
                if j == prev.len() {
                    assert(prev[i] == prev.push(x)[i]);
                }
            }
        }
        assert forall|i: int| 0 <= i < items.len() implies add_all_unique(acc, items).contains(
            #[trigger] items[i],
        ) by {
            if i < items.len() - 1 {
                assert(init[i] == items[i]);
                let k = choose|k: int| 0 <= k < prev.len() && prev[k] == init[i];
                if !prev.contains(x) {
                    assert(prev.push(x)[k] == items[i]);
                }
            } else if !prev.contains(x) {
                assert(prev.push(x)[prev.len() as int] == x);
            }
        }
    }
}

/// What an endpoints object yields.
pub open spec fn endpoints_view(m: ManifestView) -> SnapshotView {
    let subsets = items_at(m, seq!["subsets"@]);
    let ready = address_count(subsets, "addresses"@);
    let not_ready = address_count(subsets, "notReadyAddresses"@);
    let ports = add_all_unique(Seq::empty(), subset_port_texts(subsets));
    SnapshotView {
        health_status: if ready > 0 {
            HealthStatus::Healthy
        } else {
            HealthStatus::Warning
        },
        warnings: if ready > 0 {
            Seq::empty()
        } else if not_ready > 0 {
            seq!["No ready endpoints - "@ + decimal(not_ready as int) + " not ready addresses"@]
        } else {
            seq!["No endpoints available - service has no backing pods"@]
        },
        summary: Some(
            "Endpoints "@ + m.name + " - Ready: "@ + decimal(ready as int) + " - Not Ready: "@
                + decimal(not_ready as int),
        ),
        key_fields: seq![
            ("ready_addresses"@, decimal(ready as int)),
            ("not_ready_addresses"@, decimal(not_ready as int)),
            ("ports"@, joined(ports, ", "@)),
        ],
        ..base_view(m, "Endpoints"@, metadata_str(m, "namespace"@))
    }
}

/// The length of the list under `key` of a node, or 0.
fn items_len(v: &YamlValue, key: &str) -> (r: usize)
    ensures
        r == items_of(v@, key@).len(),
{
    match v.get(key) {
        Some(n) => match n.as_vec() {
            Some(items) => items.len(),
            None => 0,
        },
        None => 0,
    }
}

/// Whether a list of texts holds `s`.
pub fn texts_contain(v: &Vec<String>, s: &str) -> (r: bool)
    ensures
        r == v.deep_view().contains(s@),
{
    let mut i: usize = 0;
    while i < v.len()
        invariant
            i <= v.len(),
            forall|k: int| 0 <= k < i ==> v.deep_view()[k] != s@,
        decreases v.len() - i,
    {
        if str_eq(v[i].as_str(), s) {
            assert(v.deep_view()[i as int] == s@);
            return true;
        }
        i = i + 1;
    }
    false
}

/// Adds the port texts of one subset, each unless already there.
fn add_subset_ports(out: &mut Vec<String>, subset: &YamlValue)
    ensures
        final(out).deep_view() == add_all_unique(
            old(out).deep_view(),
            items_of(subset@, "ports"@).map_values(|p: YamlView| port_text(p)),
        ),
{
    let ghost f = |p: YamlView| port_text(p);
    let ghost start = out.deep_view();
    match subset.get("ports") {
        Some(node) => match node.as_vec() {
            Some(ports) => {
                let ghost pv = items_view(ports@);
                let mut i: usize = 0;
                assert(pv.take(0).map_values(f) =~= Seq::<Seq<char>>::empty());
                while i < ports.len()
                    invariant
                        i <= ports.len(),
                        pv == items_view(ports@),
                        items_of(subset@, "ports"@) == pv,
                        out.deep_view() == add_all_unique(start, pv.take(i as int).map_values(f)),
                    decreases ports.len() - i,
                {
                    assert(pv[i as int] == ports@[i as int]@);
                    let t = port_text_of(&ports[i]);
                    let ghost prev = out.deep_view();
                    if !texts_contain(out, t.as_str()) {
                        push_text(out, t);
                    }
                    assert(pv.take(i + 1).map_values(f).drop_last() =~= pv.take(i as int).map_values(f));
                    i = i + 1;
                }
                assert(pv.take(ports.len() as int) =~= pv);
            },
            None => {},
        },
        None => {},
    }
}

/// An endpoints object.
#[derive(Debug)]
pub struct Endpoints {
    manifest: Manifest,
}

impl Endpoints {
    /// The manifest the endpoints object was read from.
    pub closed spec fn manifest_view(self) -> ManifestView {
        self.manifest@
    }

    /// Reads an endpoints object from its manifest.
    pub fn from(manifest: Manifest) -> (r: Endpoints)
        ensures
            r.manifest_view() == manifest@,
    {
        Endpoints { manifest }
    }
}

/// The address counts and the distinct port texts of the subsets.
fn endpoint_parts(m: &Manifest) -> (r: (u128, u128, Vec<String>))
    ensures
        r.0 == address_count(items_at(m@, seq!["subsets"@]), "addresses"@),
        r.1 == address_count(items_at(m@, seq!["subsets"@]), "notReadyAddresses"@),
        r.2.deep_view() == add_all_unique(
            Seq::empty(),
            subset_port_texts(items_at(m@, seq!["subsets"@])),
        ),
{
    let mut ready: u128 = 0;
    let mut not_ready: u128 = 0;
    let mut ports: Vec<String> = Vec::new();
    let path = keys1("subsets");
    assert(key_views(path@) =~= seq!["subsets"@]);
    match m.at(&path) {
        Some(node) => match node.as_vec() {
            Some(subsets) => {
                let ghost sv = items_view(subsets@);
                let mut i: usize = 0;
                assert(sv.take(0) =~= Seq::<YamlView>::empty());
                assert(ports.deep_view() =~= Seq::<Seq<char>>::empty());
                while i < subsets.len()
                    invariant
                        i <= subsets.len(),
                        sv == items_view(subsets@),
                        ready == address_count(sv.take(i as int), "addresses"@),
                        not_ready == address_count(sv.take(i as int), "notReadyAddresses"@),
                        ready <= i * 0xFFFF_FFFF_FFFF_FFFFu128,
                        not_ready <= i * 0xFFFF_FFFF_FFFF_FFFFu128,
                        ports.deep_view() == add_all_unique(
                            Seq::empty(),
                            subset_port_texts(sv.take(i as int)),
                        ),
                    decreases subsets.len() - i,
                {
                    assert(sv[i as int] == subsets@[i as int]@);
                    assert(sv.take(i + 1).drop_last() =~= sv.take(i as int));
                    let a = items_len(&subsets[i], "addresses");
                    let b = items_len(&subsets[i], "notReadyAddresses");
                    ready = ready + a as u128;
                    not_ready = not_ready + b as u128;
                    proof {
                        lemma_add_all_unique_concat(
                            Seq::empty(),
                            subset_port_texts(sv.take(i as int)),
                            items_of(sv[i as int], "ports"@).map_values(|p: YamlView| port_text(p)),
                        );
                    }
                    add_subset_ports(&mut ports, &subsets[i]);
                    i = i + 1;
                }
                assert(sv.take(subsets.len() as int) =~= sv);
            },
            None => {},
        },
        None => {},
    }
    (ready, not_ready, ports)
}

impl ResourceV2 for Endpoints {
    open spec fn describe(&self) -> SnapshotView {
        endpoints_view(self.manifest_view())
    }

    fn snapshot(&self) -> (r: ResourceSnapshot) {
        let m = &self.manifest;
        let namespace = m.namespace();
        let (ready, not_ready, ports) = endpoint_parts(m);
        let mut s = base_snapshot(m, "Endpoints", &namespace);
        s.health_status = if ready > 0 {
            HealthStatus::Healthy
        } else {
            HealthStatus::Warning
        };
        let ready_text = u128_to_text(ready);
        let not_ready_text = u128_to_text(not_ready);
        if ready == 0 {
            if not_ready > 0 {
                push_text(
                    &mut s.warnings,
                    join3("No ready endpoints - ", not_ready_text.as_str(), " not ready addresses"),
                );
            } else {
                push_text(
                    &mut s.warnings,
                    String::from_str("No endpoints available - service has no backing pods"),
                );
            }
        }
        let mut summary = join3("Endpoints ", m.name.as_str(), " - Ready: ");
        summary.append(ready_text.as_str());
        summary.append(" - Not Ready: ");
        summary.append(not_ready_text.as_str());
        s.summary = Some(summary);
        push_field(&mut s.key_fields, "ready_addresses", copy_string(&ready_text));
        push_field(&mut s.key_fields, "not_ready_addresses", not_ready_text);
        push_field(&mut s.key_fields, "ports", join_texts(&ports, ", "));
        proof {
            let v = endpoints_view(m@);
            assert(s@.warnings =~= v.warnings);
            assert(s@.key_fields =~= v.key_fields);
        }
        s
    }
}

// ---------------------------------------------------------------------------
// IngressController
// ---------------------------------------------------------------------------
/// What an ingress controller yields.
pub open spec fn ingress_controller_view(m: ManifestView) -> SnapshotView {
    let domain = text_of(m, seq!["spec"@, "domain"@]);
    let replicas = int_or(m, "spec"@, "replicas"@, 2);
    let available = int_or(m, "status"@, "availableReplicas"@, 0);
    let is_available = manifest_has_condition_status(m, "Available"@, "True"@);
    let degraded = manifest_has_condition_status(m, "Degraded"@, "True"@);
    SnapshotView {
        health_status: if available == 0 {
            HealthStatus::Error
        } else if available < replicas {
            HealthStatus::Warning
        } else if is_available {
            HealthStatus::Healthy
        } else if degraded {
            HealthStatus::Warning
        } else {
            HealthStatus::Unknown
        },
        conditions: condition_views(m),
        warnings: msg_if(
            available < replicas && available > 0,
            ratio_text("Only "@, available, replicas, " replicas are available"@),
        ) + msg_if(degraded, "IngressController is degraded"@),
        errors: msg_if(available == 0, "No replicas are available - ingress is unavailable"@)
            + msg_if(!is_available, "IngressController is not available"@),
        summary: Some(
            "IngressController "@ + m.name + " - Domain: "@ + or_text(domain, "N/A"@)
                + ratio_text(" - Replicas: "@, available, replicas, ""@),
        ),
        key_fields: field_if("domain"@, domain) + seq![
            ("replicas"@, decimal(replicas as int)),
            ("available_replicas"@, decimal(available as int)),
        ],
        ..base_view(m, "IngressController"@, metadata_str(m, "namespace"@))
    }
}

/// An ingress controller.
#[derive(Debug)]
pub struct IngressController {
    manifest: Manifest,
}

impl IngressController {
    /// The manifest the ingress controller was read from.
    pub closed spec fn manifest_view(self) -> ManifestView {
        self.manifest@
    }

    /// Reads an ingress controller from its manifest.
    pub fn from(manifest: Manifest) -> (r: IngressController)
        ensures
            r.manifest_view() == manifest@,
    {
        IngressController { manifest }
    }
}

impl ResourceV2 for IngressController {
    open spec fn describe(&self) -> SnapshotView {
        ingress_controller_view(self.manifest_view())
    }

    fn snapshot(&self) -> (r: ResourceSnapshot) {
        proof {
            reveal_strlit("");
        }
        let m = &self.manifest;
        let namespace = m.namespace();
        let domain = text_at(m, &keys2("spec", "domain"));
        let replicas = int_field(m, "spec", "replicas", 2);
        let available = int_field(m, "status", "availableReplicas", 0);
        let is_available = m.has_condition_status("Available", "True");
        let degraded = m.has_condition_status("Degraded", "True");
        let mut s = base_snapshot(m, "IngressController", &namespace);
        s.health_status = if available == 0 {
            HealthStatus::Error
        } else if available < replicas {
            HealthStatus::Warning
        } else if is_available {
            HealthStatus::Healthy
        } else if degraded {
            HealthStatus::Warning
        } else {
            HealthStatus::Unknown
        };
        s.conditions = conditions_of(m);
        if available < replicas && available > 0 {
            push_text(&mut s.warnings, ratio("Only ", available, replicas, " replicas are available"));
        }
        if degraded {
            push_text(&mut s.warnings, String::from_str("IngressController is degraded"));
        }
        if available == 0 {
            push_text(
                &mut s.errors,
                String::from_str("No replicas are available - ingress is unavailable"),
            );
        }
        if !is_available {
            push_text(&mut s.errors, String::from_str("IngressController is not available"));
        }
        let mut summary = join3("IngressController ", m.name.as_str(), " - Domain: ");
        summary.append(text_or(&domain, "N/A"));
        summary.append(ratio(" - Replicas: ", available, replicas, "").as_str());
        s.summary = Some(summary);
        push_field_if(&mut s.key_fields, "domain", &domain);
        push_field(&mut s.key_fields, "replicas", i64_to_text(replicas));
        push_field(&mut s.key_fields, "available_replicas", i64_to_text(available));
        proof {
            let v = ingress_controller_view(m@);
            assert(s@.warnings =~= v.warnings);
            assert(s@.errors =~= v.errors);
            assert(s@.key_fields =~= v.key_fields);
        }
        s
    }
}

// ---------------------------------------------------------------------------
// NetworkPolicy
// ---------------------------------------------------------------------------
/// The length of the list at a path, or 0.
pub open spec fn count_at(m: ManifestView, keys: Seq<Seq<char>>) -> nat {
    items_at(m, keys).len()
}

/// The pods a network policy selects: its `key=value` labels sorted and
/// joined, or `all pods` when it names none.
pub open spec fn pod_selector_text(m: ManifestView) -> Seq<char> {
    let labels = pair_texts(pairs_at(m, seq!["spec"@, "podSelector"@, "matchLabels"@]));
    if labels.len() == 0 {
        "all pods"@
    } else {
        joined(sorted_texts(labels), ", "@)
    }
}

/// The policy types joined, or `unspecified`.
pub open spec fn policy_types_text(m: ManifestView) -> Seq<char> {
    let types = list_of(m, seq!["spec"@, "policyTypes"@]);
    if types.len() == 0 {
        "unspecified"@
    } else {
        joined(types, ", "@)
    }
}

/// What a network policy yields.
pub open spec fn network_policy_view(m: ManifestView) -> SnapshotView {
    let ingress = count_at(m, seq!["spec"@, "ingress"@]);
    let egress = count_at(m, seq!["spec"@, "egress"@]);
    SnapshotView {
        health_status: HealthStatus::Healthy,
        summary: Some(
            "NetworkPolicy "@ + m.name + " - Types: "@ + policy_types_text(m) + " - Ingress rules: "@
                + decimal(ingress as int) + " - Egress rules: "@ + decimal(egress as int),
        ),
        key_fields: seq![
            ("policy_types"@, policy_types_text(m)),
            ("ingress_rules"@, decimal(ingress as int)),
            ("egress_rules"@, decimal(egress as int)),
            ("pod_selector"@, pod_selector_text(m)),
        ],
        ..base_view(m, "NetworkPolicy"@, metadata_str(m, "namespace"@))
    }
}

/// A network policy.
#[derive(Debug)]
pub struct NetworkPolicy {
    manifest: Manifest,
}

impl NetworkPolicy {
    /// The manifest the network policy was read from.
    pub closed spec fn manifest_view(self) -> ManifestView {
        self.manifest@
    }

    /// Reads a network policy from its manifest.
    pub fn from(manifest: Manifest) -> (r: NetworkPolicy)
        ensures
            r.manifest_view() == manifest@,
    {
        NetworkPolicy { manifest }
    }
}

/// The length of the list at a path, or 0.
fn count_of(m: &Manifest, keys: &[&str]) -> (r: usize)
    ensures
        r == count_at(m@, key_views(keys@)),
{
    match m.at(keys) {
        Some(n) => match n.as_vec() {
            Some(items) => items.len(),
            None => 0,
        },
        None => 0,
    }
}

/// The selector text of a network policy.
fn pod_selector_of(m: &Manifest) -> (r: String)
    ensures
        r@ == pod_selector_text(m@),
{
    let path = keys3("spec", "podSelector", "matchLabels");
    assert(key_views(path@) =~= seq!["spec"@, "podSelector"@, "matchLabels"@]);
    let labels = pair_texts_of(&pairs_of(m, &path));
    if labels.len() == 0 {
        String::from_str("all pods")
    } else {
        let ghost before = labels.deep_view();
        let sorted = sort_texts(labels);
        proof {
            lemma_is_sorted_texts(before, sorted.deep_view());
        }
        join_texts(&sorted, ", ")
    }
}

/// The policy types text of a network policy.
fn policy_types_of(m: &Manifest) -> (r: String)
    ensures
        r@ == policy_types_text(m@),
{
    let path = keys2("spec", "policyTypes");
    assert(key_views(path@) =~= seq!["spec"@, "policyTypes"@]);
    let types = list_at(m, &path);
    if types.len() == 0 {
        String::from_str("unspecified")
    } else {
        join_texts(&types, ", ")
    }
}

impl ResourceV2 for NetworkPolicy {
    open spec fn describe(&self) -> SnapshotView {
        network_policy_view(self.manifest_view())
    }

    fn snapshot(&self) -> (r: ResourceSnapshot) {
        let m = &self.manifest;
        let namespace = m.namespace();
        let p_in = keys2("spec", "ingress");
        let p_out = keys2("spec", "egress");
        assert(key_views(p_in@) =~= seq!["spec"@, "ingress"@]);
        assert(key_views(p_out@) =~= seq!["spec"@, "egress"@]);
        let ingress = count_of(m, &p_in);
        let egress = count_of(m, &p_out);
        let types = policy_types_of(m);
        let mut s = base_snapshot(m, "NetworkPolicy", &namespace);
        s.health_status = HealthStatus::Healthy;
        let ingress_text = usize_to_text(ingress);
        let egress_text = usize_to_text(egress);
        let mut summary = join3("NetworkPolicy ", m.name.as_str(), " - Types: ");
        summary.append(types.as_str());
        summary.append(" - Ingress rules: ");
        summary.append(ingress_text.as_str());
        summary.append(" - Egress rules: ");
        summary.append(egress_text.as_str());
        s.summary = Some(summary);
        push_field(&mut s.key_fields, "policy_types", types);
        push_field(&mut s.key_fields, "ingress_rules", ingress_text);
        push_field(&mut s.key_fields, "egress_rules", egress_text);
        push_field(&mut s.key_fields, "pod_selector", pod_selector_of(m));
        proof {
            let v = network_policy_view(m@);
            assert(s@.key_fields =~= v.key_fields);
        }
        s
    }
}

// ---------------------------------------------------------------------------
// The first view of each kind
// ---------------------------------------------------------------------------

impl Resource for Route {
    open spec fn failing(&self) -> bool {
        !any_condition(route_conditions(self.manifest_view()), "Admitted"@, "True"@)
    }

    open spec fn warned(&self) -> bool {
        false
    }

    open spec fn flagged(&self) -> Seq<Seq<char>> {
        Seq::empty()
    }

    fn is_error(&self) -> (r: bool) {
        !any_condition_of(&route_conditions_of(&self.manifest), "Admitted", "True")
    }

    fn is_warning(&self) -> (r: bool) {
        false
    }

    fn conditions(&self) -> (r: Vec<String>) {
        no_names()
    }
}

impl Resource for Service {
    open spec fn failing(&self) -> bool {
        false
    }

    open spec fn warned(&self) -> bool {
        pairs_at(self.manifest_view(), seq!["spec"@, "selector"@]).len() == 0
    }

    open spec fn flagged(&self) -> Seq<Seq<char>> {
        Seq::empty()
    }

    fn is_error(&self) -> (r: bool) {
        false
    }

    fn is_warning(&self) -> (r: bool) {
        pairs_of(&self.manifest, &keys2("spec", "selector")).len() == 0
    }

    fn conditions(&self) -> (r: Vec<String>) {
        no_names()
    }
}

impl Resource for Endpoints {
    open spec fn failing(&self) -> bool {
        false
    }

    open spec fn warned(&self) -> bool {
        address_count(items_at(self.manifest_view(), seq!["subsets"@]), "addresses"@) == 0
    }

    open spec fn flagged(&self) -> Seq<Seq<char>> {
        Seq::empty()
    }

    fn is_error(&self) -> (r: bool) {
        false
    }

    fn is_warning(&self) -> (r: bool) {
        endpoint_parts(&self.manifest).0 == 0
    }

    fn conditions(&self) -> (r: Vec<String>) {
        no_names()
    }
}

impl Resource for IngressController {
    open spec fn failing(&self) -> bool {
        int_or(self.manifest_view(), "status"@, "availableReplicas"@, 0) == 0
    }

    open spec fn warned(&self) -> bool {
        int_or(self.manifest_view(), "status"@, "availableReplicas"@, 0) < int_or(self.manifest_view(), "spec"@, "replicas"@, 2) && int_or(self.manifest_view(), "status"@, "availableReplicas"@, 0) > 0
    }

    open spec fn flagged(&self) -> Seq<Seq<char>> {
        Seq::empty()
    }

    fn is_error(&self) -> (r: bool) {
        int_field(&self.manifest, "status", "availableReplicas", 0) == 0
    }

    fn is_warning(&self) -> (r: bool) {
        int_field(&self.manifest, "status", "availableReplicas", 0) < int_field(&self.manifest, "spec", "replicas", 2) && int_field(&self.manifest, "status", "availableReplicas", 0) > 0
    }

    fn conditions(&self) -> (r: Vec<String>) {
        no_names()
    }
}

impl Resource for NetworkPolicy {
    open spec fn failing(&self) -> bool {
        false
    }

    open spec fn warned(&self) -> bool {
        false
    }

    open spec fn flagged(&self) -> Seq<Seq<char>> {
        Seq::empty()
    }

    fn is_error(&self) -> (r: bool) {
        false
    }

    fn is_warning(&self) -> (r: bool) {
        false
    }

    fn conditions(&self) -> (r: Vec<String>) {
        no_names()
    }
}

} // verus!
