//! What a pod template refers to: persistent volume claims, config maps
//! and secrets named by its volumes, image pull secrets and containers.
use crate::manifest::{doc_at, metadata_str, Manifest, ManifestView};
use crate::resources::{
    copy_opt_string, links_after_push, str_eq, push_resource_link, RelationshipType, ResourceLink,
    ResourceLinkView,
};
use crate::yaml::{
    items_view, key_views, lookup_path, str_of, vec_of, YamlValue, YamlView,
};
use vstd::prelude::*;

verus! {

/// The links after adding each candidate in turn.
pub open spec fn push_all(links: Seq<ResourceLinkView>, cands: Seq<ResourceLinkView>) -> Seq<
    ResourceLinkView,
>
    decreases cands.len(),
{
    if cands.len() == 0 {
        links
    } else {
        push_all(links_after_push(links, cands[0]), cands.drop_first())
    }
}

/// Adding two lists of candidates one after the other adds their
/// concatenation.
pub proof fn lemma_push_all_concat(
    links: Seq<ResourceLinkView>,
    a: Seq<ResourceLinkView>,
    b: Seq<ResourceLinkView>,
)
    ensures
        push_all(links, a + b) == push_all(push_all(links, a), b),
    decreases a.len(),
{
    if a.len() == 0 {
        assert(a + b =~= b);
    } else {
        assert((a + b).drop_first() =~= a.drop_first() + b);
        lemma_push_all_concat(links_after_push(links, a[0]), a.drop_first(), b);
    }
}

/// The concatenation of a list of lists.
pub open spec fn flat(s: Seq<Seq<ResourceLinkView>>) -> Seq<ResourceLinkView>
    decreases s.len(),
{
    if s.len() == 0 {
        Seq::empty()
    } else {
        flat(s.drop_last()) + s.last()
    }
}

/// A reference to a `kind` named by a string node, when it is one.
pub open spec fn named_ref(kind: Seq<char>, name: Option<Seq<char>>, ns: Option<Seq<char>>) -> Seq<
    ResourceLinkView,
> {
    match name {
        Some(n) => seq![
            ResourceLinkView {
                kind,
                name: n,
                namespace: ns,
                relationship: RelationshipType::References,
            },
        ],
        None => Seq::empty(),
    }
}

/// The string at a path below a node.
pub open spec fn str_below(v: YamlView, keys: Seq<Seq<char>>) -> Option<Seq<char>> {
    str_of(lookup_path(Some(v), keys))
}

/// The items of a sequence at a path below a node, or none.
pub open spec fn items_below(v: YamlView, keys: Seq<Seq<char>>) -> Seq<YamlView> {
    match vec_of(lookup_path(Some(v), keys)) {
        Some(items) => items,
        None => Seq::empty(),
    }
}

/// What a projected volume source refers to.
pub open spec fn projected_refs(src: YamlView, ns: Option<Seq<char>>) -> Seq<ResourceLinkView> {
    named_ref("ConfigMap"@, str_below(src, seq!["configMap"@, "name"@]), ns) + named_ref(
        "Secret"@,
        str_below(src, seq!["secret"@, "name"@]),
        ns,
    )
}

/// What a volume refers to.
pub open spec fn volume_refs(v: YamlView, ns: Option<Seq<char>>) -> Seq<ResourceLinkView> {
    named_ref(
        "PersistentVolumeClaim"@,
        str_below(v, seq!["persistentVolumeClaim"@, "claimName"@]),
        ns,
    ) + named_ref("ConfigMap"@, str_below(v, seq!["configMap"@, "name"@]), ns) + named_ref(
        "Secret"@,
        str_below(v, seq!["secret"@, "secretName"@]),
        ns,
    ) + flat(
        items_below(v, seq!["projected"@, "sources"@]).map_values(
            |src: YamlView| projected_refs(src, ns),
        ),
    )
}

/// What an image pull secret entry refers to.
pub open spec fn pull_secret_refs(e: YamlView, ns: Option<Seq<char>>) -> Seq<ResourceLinkView> {
    named_ref("Secret"@, str_below(e, seq!["name"@]), ns)
}

/// What an `env` entry refers to.
pub open spec fn env_refs(e: YamlView, ns: Option<Seq<char>>) -> Seq<ResourceLinkView> {
    named_ref(
        "ConfigMap"@,
        str_below(e, seq!["valueFrom"@, "configMapKeyRef"@, "name"@]),
        ns,
    ) + named_ref("Secret"@, str_below(e, seq!["valueFrom"@, "secretKeyRef"@, "name"@]), ns)
}

/// What an `envFrom` entry refers to.
pub open spec fn env_from_refs(e: YamlView, ns: Option<Seq<char>>) -> Seq<ResourceLinkView> {
    named_ref("ConfigMap"@, str_below(e, seq!["configMapRef"@, "name"@]), ns) + named_ref(
        "Secret"@,
        str_below(e, seq!["secretRef"@, "name"@]),
        ns,
    )
}

/// What a container refers to: its env entries, then its envFrom entries.
pub open spec fn container_refs(c: YamlView, ns: Option<Seq<char>>) -> Seq<ResourceLinkView> {
    flat(items_below(c, seq!["env"@]).map_values(|e: YamlView| env_refs(e, ns))) + flat(
        items_below(c, seq!["envFrom"@]).map_values(|e: YamlView| env_from_refs(e, ns)),
    )
}

/// What a pod spec refers to, in the order it is read: volumes, image
/// pull secrets, then containers, init containers and ephemeral
/// containers.
pub open spec fn pod_spec_refs(spec: YamlView, ns: Option<Seq<char>>) -> Seq<ResourceLinkView> {
    flat(items_below(spec, seq!["volumes"@]).map_values(|v: YamlView| volume_refs(v, ns))) + flat(
        items_below(spec, seq!["imagePullSecrets"@]).map_values(
            |e: YamlView| pull_secret_refs(e, ns),
        ),
    ) + flat(
        items_below(spec, seq!["containers"@]).map_values(|c: YamlView| container_refs(c, ns)),
    ) + flat(
        items_below(spec, seq!["initContainers"@]).map_values(
            |c: YamlView| container_refs(c, ns),
        ),
    ) + flat(
        items_below(spec, seq!["ephemeralContainers"@]).map_values(
            |c: YamlView| container_refs(c, ns),
        ),
    )
}

/// Where a workload keeps its pod spec, by kind.
pub open spec fn pod_spec_path(kind: Option<Seq<char>>) -> Option<Seq<Seq<char>>> {
    match kind {
        Some(k) => if k == "Pod"@ {
            Some(seq!["spec"@])
        } else if k == "Deployment"@ || k == "StatefulSet"@ || k == "DaemonSet"@ || k
            == "ReplicaSet"@ || k == "Job"@ {
            Some(seq!["spec"@, "template"@, "spec"@])
        } else if k == "CronJob"@ {
            Some(seq!["spec"@, "jobTemplate"@, "spec"@, "template"@, "spec"@])
        } else {
            None
        },
        None => None,
    }
}

/// The resources a workload's pod spec refers to, each once.
pub open spec fn workload_links(m: ManifestView) -> Seq<ResourceLinkView> {
    let ns = metadata_str(m, "namespace"@);
    match pod_spec_path(str_of(doc_at(m, seq!["kind"@]))) {
        Some(path) => match doc_at(m, path) {
            Some(spec) => push_all(Seq::empty(), pod_spec_refs(spec, ns)),
            None => push_all(Seq::empty(), pod_spec_refs(YamlView::BadValue, ns)),
        },
        None => Seq::empty(),
    }
}

/// A node `kind` under a path of two keys below `v`, when it is a string.
fn str_at<'a>(v: &'a YamlValue, keys: &[&str]) -> (r: Option<&'a str>)
    ensures
        match r {
            Some(s) => str_below(v@, key_views(keys@)) == Some(s@),
            None => str_below(v@, key_views(keys@)) is None,
        },
{
    match v.at(keys) {
        Some(n) => n.as_str(),
        None => None,
    }
}

/// Adds a reference to a `kind` named by an optional string.
fn add_named(
    links: &mut Vec<ResourceLink>,
    kind: &str,
    name: Option<&str>,
    ns: &Option<String>,
)
    ensures
        final(links).deep_view() == push_all(
            old(links).deep_view(),
            named_ref(
                kind@,
                match name {
                    Some(n) => Some(n@),
                    None => None,
                },
                ns.deep_view(),
            ),
        ),
{
    match name {
        Some(n) => {
            let ghost before = links.deep_view();
            let ghost l = ResourceLinkView {
                kind: kind@,
                name: n@,
                namespace: ns.deep_view(),
                relationship: RelationshipType::References,
            };
            push_resource_link(links, kind, n, copy_opt_string(ns), RelationshipType::References);
            assert(links.deep_view() == links_after_push(before, l));
            assert(seq![l].drop_first() =~= Seq::<ResourceLinkView>::empty());
            assert(seq![l][0] == l);
            assert(push_all(before, seq![l]) == push_all(
                links_after_push(before, l),
                Seq::<ResourceLinkView>::empty(),
            ));
        },
        None => {},
    }
}

/// The items of a sequence at a path below a node.
fn items_at<'a>(v: &'a YamlValue, keys: &[&str]) -> (r: Option<&'a Vec<YamlValue>>)
    ensures
        match r {
            Some(items) => items_below(v@, key_views(keys@)) == items_view(items@),
            None => items_below(v@, key_views(keys@)) == Seq::<YamlView>::empty(),
        },
{
    match v.at(keys) {
        Some(n) => n.as_vec(),
        None => None,
    }
}

/// Which references of an item a walk over a sequence adds.
#[derive(Clone, Copy)]
pub enum RefRule {
    Volume,
    Projected,
    PullSecret,
    Env,
    EnvFrom,
    Container,
}

/// How deep the references of a rule reach into nested sequences.
pub open spec fn rule_depth(rule: RefRule) -> nat {
    match rule {
        RefRule::Volume => 2,
        RefRule::Container => 2,
        _ => 1,
    }
}

/// The references an item adds under a rule.
pub open spec fn rule_refs(rule: RefRule, v: YamlView, ns: Option<Seq<char>>) -> Seq<
    ResourceLinkView,
> {
    match rule {
        RefRule::Volume => volume_refs(v, ns),
        RefRule::Projected => projected_refs(v, ns),
        RefRule::PullSecret => pull_secret_refs(v, ns),
        RefRule::Env => env_refs(v, ns),
        RefRule::EnvFrom => env_from_refs(v, ns),
        RefRule::Container => container_refs(v, ns),
    }
}

/// Adds the references of each item of a sequence at a path below `v`.
fn add_each(
    links: &mut Vec<ResourceLink>,
    v: &YamlValue,
    keys: &[&str],
    rule: RefRule,
    ns: &Option<String>,
)
    ensures
        final(links).deep_view() == push_all(
            old(links).deep_view(),
            flat(
                items_below(v@, key_views(keys@)).map_values(
                    |x: YamlView| rule_refs(rule, x, ns.deep_view()),
                ),
            ),
        ),
    decreases 2 * rule_depth(rule) + 2,
{
    let ghost f = |x: YamlView| rule_refs(rule, x, ns.deep_view());
    let ghost start = links.deep_view();
    match items_at(v, keys) {
        Some(items) => {
            let ghost iv = items_view(items@);
            let mut i: usize = 0;
            assert(iv.take(0).map_values(f) =~= Seq::<Seq<ResourceLinkView>>::empty());
            while i < items.len()
                invariant
                    i <= items.len(),
                    iv == items_view(items@),
                    links.deep_view() == push_all(start, flat(iv.take(i as int).map_values(f))),
                decreases items.len() - i,
            {
                let ghost before = links.deep_view();
                assert(iv[i as int] == items@[i as int]@);
                add_refs(links, &items[i], rule, ns);
                assert(iv.take(i + 1).map_values(f).drop_last() =~= iv.take(i as int).map_values(
                    f,
                ));
                proof {
                    lemma_push_all_concat(
                        start,
                        flat(iv.take(i as int).map_values(f)),
                        f(iv[i as int]),
                    );
                }
                i = i + 1;
            }
            assert(iv.take(items.len() as int) =~= iv);
        },
        None => {
            assert(Seq::<YamlView>::empty().map_values(f) =~= Seq::<Seq<ResourceLinkView>>::empty());
        },
    }
}

/// Adds the references of one item under a rule.
fn add_refs(links: &mut Vec<ResourceLink>, v: &YamlValue, rule: RefRule, ns: &Option<String>)
    ensures
        final(links).deep_view() == push_all(
            old(links).deep_view(),
            rule_refs(rule, v@, ns.deep_view()),
        ),
    decreases 2 * rule_depth(rule) + 1,
{
    let ghost start = links.deep_view();
    let ghost nsv = ns.deep_view();
    match rule {
        RefRule::Volume => {
            let k1: [&str; 2] = ["persistentVolumeClaim", "claimName"];
            assert(key_views(k1@) =~= seq!["persistentVolumeClaim"@, "claimName"@]);
            let k2: [&str; 2] = ["configMap", "name"];
            assert(key_views(k2@) =~= seq!["configMap"@, "name"@]);
            let k3: [&str; 2] = ["secret", "secretName"];
            assert(key_views(k3@) =~= seq!["secret"@, "secretName"@]);
            let k4: [&str; 2] = ["projected", "sources"];
            assert(key_views(k4@) =~= seq!["projected"@, "sources"@]);
            let ghost a = named_ref("PersistentVolumeClaim"@, str_below(v@, key_views(k1@)), nsv);
            let ghost b = named_ref("ConfigMap"@, str_below(v@, key_views(k2@)), nsv);
            let ghost c = named_ref("Secret"@, str_below(v@, key_views(k3@)), nsv);
            add_named(links, "PersistentVolumeClaim", str_at(v, &k1), ns);
            add_named(links, "ConfigMap", str_at(v, &k2), ns);
            add_named(links, "Secret", str_at(v, &k3), ns);
            add_each(links, v, &k4, RefRule::Projected, ns);
            let ghost d = flat(
                items_below(v@, key_views(k4@)).map_values(
                    |x: YamlView| rule_refs(RefRule::Projected, x, nsv),
                ),
            );
            assert(items_below(v@, key_views(k4@)).map_values(
                |x: YamlView| rule_refs(RefRule::Projected, x, nsv),
            ) =~= items_below(v@, key_views(k4@)).map_values(
                |src: YamlView| projected_refs(src, nsv),
            ));
            proof {
                lemma_push_all_concat(start, a, b);
                lemma_push_all_concat(start, a + b, c);
                lemma_push_all_concat(start, a + b + c, d);
            }
        },
        RefRule::Projected => {
            let k1: [&str; 2] = ["configMap", "name"];
            assert(key_views(k1@) =~= seq!["configMap"@, "name"@]);
            let k2: [&str; 2] = ["secret", "name"];
            assert(key_views(k2@) =~= seq!["secret"@, "name"@]);
            let ghost a = named_ref("ConfigMap"@, str_below(v@, key_views(k1@)), nsv);
            add_named(links, "ConfigMap", str_at(v, &k1), ns);
            add_named(links, "Secret", str_at(v, &k2), ns);
            proof {
                lemma_push_all_concat(
                    start,
                    a,
                    named_ref("Secret"@, str_below(v@, key_views(k2@)), nsv),
                );
            }
        },
        RefRule::PullSecret => {
            let k1: [&str; 1] = ["name"];
            assert(key_views(k1@) =~= seq!["name"@]);
            add_named(links, "Secret", str_at(v, &k1), ns);
        },
        RefRule::Env => {
            let k1: [&str; 3] = ["valueFrom", "configMapKeyRef", "name"];
            assert(key_views(k1@) =~= seq!["valueFrom"@, "configMapKeyRef"@, "name"@]);
            let k2: [&str; 3] = ["valueFrom", "secretKeyRef", "name"];
            assert(key_views(k2@) =~= seq!["valueFrom"@, "secretKeyRef"@, "name"@]);
            let ghost a = named_ref("ConfigMap"@, str_below(v@, key_views(k1@)), nsv);
            add_named(links, "ConfigMap", str_at(v, &k1), ns);
            add_named(links, "Secret", str_at(v, &k2), ns);
            proof {
                lemma_push_all_concat(
                    start,
                    a,
                    named_ref("Secret"@, str_below(v@, key_views(k2@)), nsv),
                );
            }
        },
        RefRule::EnvFrom => {
            let k1: [&str; 2] = ["configMapRef", "name"];
            assert(key_views(k1@) =~= seq!["configMapRef"@, "name"@]);
            let k2: [&str; 2] = ["secretRef", "name"];
            assert(key_views(k2@) =~= seq!["secretRef"@, "name"@]);
            let ghost a = named_ref("ConfigMap"@, str_below(v@, key_views(k1@)), nsv);
            add_named(links, "ConfigMap", str_at(v, &k1), ns);
            add_named(links, "Secret", str_at(v, &k2), ns);
            proof {
                lemma_push_all_concat(
                    start,
                    a,
                    named_ref("Secret"@, str_below(v@, key_views(k2@)), nsv),
                );
            }
        },
        RefRule::Container => {
            let k1: [&str; 1] = ["env"];
            assert(key_views(k1@) =~= seq!["env"@]);
            let k2: [&str; 1] = ["envFrom"];
            assert(key_views(k2@) =~= seq!["envFrom"@]);
            add_each(links, v, &k1, RefRule::Env, ns);
            let ghost mid = links.deep_view();
            add_each(links, v, &k2, RefRule::EnvFrom, ns);
            let ghost a = flat(
                items_below(v@, key_views(k1@)).map_values(
                    |x: YamlView| rule_refs(RefRule::Env, x, nsv),
                ),
            );
            let ghost b = flat(
                items_below(v@, key_views(k2@)).map_values(
                    |x: YamlView| rule_refs(RefRule::EnvFrom, x, nsv),
                ),
            );
            assert(items_below(v@, key_views(k1@)).map_values(
                |x: YamlView| rule_refs(RefRule::Env, x, nsv),
            ) =~= items_below(v@, seq!["env"@]).map_values(|e: YamlView| env_refs(e, nsv)));
            assert(items_below(v@, key_views(k2@)).map_values(
                |x: YamlView| rule_refs(RefRule::EnvFrom, x, nsv),
            ) =~= items_below(v@, seq!["envFrom"@]).map_values(
                |e: YamlView| env_from_refs(e, nsv),
            ));
            proof {
                lemma_push_all_concat(start, a, b);
            }
        },
    }
}

/// Adds what a pod spec refers to.
fn add_pod_spec_refs(links: &mut Vec<ResourceLink>, spec: &YamlValue, ns: &Option<String>)
    ensures
        final(links).deep_view() == push_all(
            old(links).deep_view(),
            pod_spec_refs(spec@, ns.deep_view()),
        ),
{
    let ghost start = links.deep_view();
    let ghost nsv = ns.deep_view();
    let k1: [&str; 1] = ["volumes"];
    assert(key_views(k1@) =~= seq!["volumes"@]);
    let k2: [&str; 1] = ["imagePullSecrets"];
    assert(key_views(k2@) =~= seq!["imagePullSecrets"@]);
    let k3: [&str; 1] = ["containers"];
    assert(key_views(k3@) =~= seq!["containers"@]);
    let k4: [&str; 1] = ["initContainers"];
    assert(key_views(k4@) =~= seq!["initContainers"@]);
    let k5: [&str; 1] = ["ephemeralContainers"];
    assert(key_views(k5@) =~= seq!["ephemeralContainers"@]);
    add_each(links, spec, &k1, RefRule::Volume, ns);
    add_each(links, spec, &k2, RefRule::PullSecret, ns);
    add_each(links, spec, &k3, RefRule::Container, ns);
    add_each(links, spec, &k4, RefRule::Container, ns);
    add_each(links, spec, &k5, RefRule::Container, ns);
    let ghost a = flat(
        items_below(spec@, seq!["volumes"@]).map_values(|v: YamlView| volume_refs(v, nsv)),
    );
    let ghost b = flat(
        items_below(spec@, seq!["imagePullSecrets"@]).map_values(
            |e: YamlView| pull_secret_refs(e, nsv),
        ),
    );
    let ghost c = flat(
        items_below(spec@, seq!["containers"@]).map_values(|c: YamlView| container_refs(c, nsv)),
    );
    let ghost d = flat(
        items_below(spec@, seq!["initContainers"@]).map_values(
            |c: YamlView| container_refs(c, nsv),
        ),
    );
    let ghost e = flat(
        items_below(spec@, seq!["ephemeralContainers"@]).map_values(
            |c: YamlView| container_refs(c, nsv),
        ),
    );
    assert(items_below(spec@, key_views(k1@)).map_values(
        |x: YamlView| rule_refs(RefRule::Volume, x, nsv),
    ) =~= items_below(spec@, seq!["volumes"@]).map_values(|v: YamlView| volume_refs(v, nsv)));
    assert(items_below(spec@, key_views(k2@)).map_values(
        |x: YamlView| rule_refs(RefRule::PullSecret, x, nsv),
    ) =~= items_below(spec@, seq!["imagePullSecrets"@]).map_values(
        |e: YamlView| pull_secret_refs(e, nsv),
    ));
    assert(items_below(spec@, key_views(k3@)).map_values(
        |x: YamlView| rule_refs(RefRule::Container, x, nsv),
    ) =~= items_below(spec@, seq!["containers"@]).map_values(
        |c: YamlView| container_refs(c, nsv),
    ));
    assert(items_below(spec@, key_views(k4@)).map_values(
        |x: YamlView| rule_refs(RefRule::Container, x, nsv),
    ) =~= items_below(spec@, seq!["initContainers"@]).map_values(
        |c: YamlView| container_refs(c, nsv),
    ));
    assert(items_below(spec@, key_views(k5@)).map_values(
        |x: YamlView| rule_refs(RefRule::Container, x, nsv),
    ) =~= items_below(spec@, seq!["ephemeralContainers"@]).map_values(
        |c: YamlView| container_refs(c, nsv),
    ));
    proof {
        lemma_push_all_concat(start, a, b);
        lemma_push_all_concat(start, a + b, c);
        lemma_push_all_concat(start, a + b + c, d);
        lemma_push_all_concat(start, a + b + c + d, e);
    }
}

/// The resources a workload's pod template refers to, each once: the pod
/// spec of a Pod, of the template of a Deployment, StatefulSet, DaemonSet,
/// ReplicaSet or Job, of the job template of a CronJob; none for other
/// kinds.
pub fn workload_dependency_relationships(manifest: &Manifest) -> (r: Vec<ResourceLink>)
    ensures
        r.deep_view() == workload_links(manifest@),
{
    let ns = manifest.namespace();
    let mut links: Vec<ResourceLink> = Vec::new();
    assert(links.deep_view() =~= Seq::<ResourceLinkView>::empty());
    let kind_keys: [&str; 1] = ["kind"];
    assert(key_views(kind_keys@) =~= seq!["kind"@]);
    let kind = match manifest.at(&kind_keys) {
        Some(k) => k.as_str(),
        None => None,
    };
    let pod: [&str; 1] = ["spec"];
    assert(key_views(pod@) =~= seq!["spec"@]);
    let template: [&str; 3] = ["spec", "template", "spec"];
    assert(key_views(template@) =~= seq!["spec"@, "template"@, "spec"@]);
    let job_template: [&str; 5] = ["spec", "jobTemplate", "spec", "template", "spec"];
    assert(key_views(job_template@) =~= seq![
        "spec"@,
        "jobTemplate"@,
        "spec"@,
        "template"@,
        "spec"@,
    ]);
    let path: Option<&[&str]> = match kind {
        Some(k) => if str_eq(k, "Pod") {
            Some(&pod)
        } else if str_eq(k, "Deployment") || str_eq(k, "StatefulSet") || str_eq(k, "DaemonSet")
            || str_eq(k, "ReplicaSet") || str_eq(k, "Job") {
            Some(&template)
        } else if str_eq(k, "CronJob") {
            Some(&job_template)
        } else {
            None
        },
        None => None,
    };
    match path {
        Some(p) => {
            let bad = YamlValue::BadValue;
            let spec = match manifest.at(p) {
                Some(s) => s,
                None => &bad,
            };
            add_pod_spec_refs(&mut links, spec, &ns);
        },
        None => {},
    }
    links
}

} // verus!
