//! Pods: their containers' states, their conditions, and the logs that were
//! gathered for their containers.
use crate::kinds::networking::items_at;
use crate::kinds::workload::{workload_dependency_relationships, workload_links};
use crate::kinds::{
    base_snapshot, base_view, condition_views, conditions_of, field_if, keys1, keys2, keys3,
    owner_reference_views, owner_references_of, push_field, push_field_if, push_text, text_at,
    text_of,
};
use crate::manifest::{doc_at, manifest_has_condition_status, metadata_str, Manifest, ManifestView};
use crate::resources::{
    copy_opt_string, copy_string, join2, join3, or_text, str_eq, text_or, Condition,
    ConditionView, Container, ContainerView, HealthStatus, ResourceSnapshot, ResourceV2,
    SnapshotView,
};
use crate::text::{bool_to_text, decimal, i128_to_text, i64_to_text, is_blank, text_is_blank, usize_to_text};
use crate::yaml::{i64_of, items_view, key_views, lookup_path, str_of, vec_of, YamlValue, YamlView};
use crate::resources::Resource;
use crate::kinds::{no_names, two_names};
use vstd::prelude::*;

verus! {

/// The text at a path below a node.
pub open spec fn node_text_at(v: YamlView, keys: Seq<Seq<char>>) -> Option<Seq<char>> {
    str_of(lookup_path(Some(v), keys))
}

/// The integer at a path below a node.
pub open spec fn node_int_at(v: YamlView, keys: Seq<Seq<char>>) -> Option<i64> {
    i64_of(lookup_path(Some(v), keys))
}

/// The text at a path below a node.
fn text_below(v: &YamlValue, keys: &[&str]) -> (r: Option<String>)
    ensures
        r.deep_view() == node_text_at(v@, key_views(keys@)),
{
    match v.at(keys) {
        Some(n) => match n.as_str() {
            Some(t) => Some(String::from_str(t)),
            None => None,
        },
        None => None,
    }
}

/// The integer at a path below a node.
fn int_below(v: &YamlValue, keys: &[&str]) -> (r: Option<i64>)
    ensures
        r == node_int_at(v@, key_views(keys@)),
{
    match v.at(keys) {
        Some(n) => n.as_i64(),
        None => None,
    }
}

/// A waiting reason that makes a pod fail.
pub open spec fn is_fatal_wait(r: Seq<char>) -> bool {
    r == "ImagePullBackOff"@ || r == "ErrImagePull"@ || r == "CrashLoopBackOff"@ || r
        == "CreateContainerConfigError"@ || r == "InvalidImageName"@
}

/// A container status that makes a pod fail: a fatal waiting reason, or a
/// termination with a non-zero exit code.
pub open spec fn status_is_error(st: YamlView) -> bool {
    (match node_text_at(st, seq!["state"@, "waiting"@, "reason"@]) {
        Some(r) => is_fatal_wait(r),
        None => false,
    }) || (match node_int_at(st, seq!["state"@, "terminated"@, "exitCode"@]) {
        Some(c) => c != 0,
        None => false,
    })
}

/// Some status of the list makes the pod fail.
pub open spec fn any_status_error(sts: Seq<YamlView>) -> bool {
    exists|i: int| 0 <= i < sts.len() && status_is_error(#[trigger] sts[i])
}

/// The phase of a pod.
pub open spec fn pod_phase(m: ManifestView) -> Option<Seq<char>> {
    text_of(m, seq!["status"@, "phase"@])
}

/// The container statuses of a pod.
pub open spec fn container_statuses(m: ManifestView) -> Seq<YamlView> {
    items_at(m, seq!["status"@, "containerStatuses"@])
}

/// The init container statuses of a pod.
pub open spec fn init_container_statuses(m: ManifestView) -> Seq<YamlView> {
    items_at(m, seq!["status"@, "initContainerStatuses"@])
}

/// The health of a pod.
pub open spec fn pod_health(m: ManifestView) -> HealthStatus {
    let phase = pod_phase(m);
    if phase == Some("Succeeded"@) {
        HealthStatus::Healthy
    } else if any_status_error(container_statuses(m)) || any_status_error(
        init_container_statuses(m),
    ) {
        HealthStatus::Error
    } else if phase == Some("Failed"@) || phase == Some("Unknown"@) {
        HealthStatus::Error
    } else if phase == Some("Pending"@) {
        if manifest_has_condition_status(m, "PodScheduled"@, "False"@) {
            HealthStatus::Error
        } else {
            HealthStatus::Warning
        }
    } else if manifest_has_condition_status(m, "Ready"@, "True"@) {
        HealthStatus::Healthy
    } else if manifest_has_condition_status(m, "Ready"@, "False"@) {
        HealthStatus::Error
    } else {
        HealthStatus::Unknown
    }
}

/// A pod's health, as its snapshot reports it: a pod that succeeded is
/// Healthy; one that failed is in Error; one that neither succeeded nor is
/// pending, with a Ready condition False and none True, is in Error
/// whatever its containers say; and a Healthy pod either succeeded or has
/// a Ready condition True.
pub proof fn lemma_pod_health(m: ManifestView, cs: Seq<ContainerView>)
    ensures
        pod_phase(m) == Some("Succeeded"@) ==> pod_view(m, cs).health_status
            == HealthStatus::Healthy,
        pod_phase(m) == Some("Failed"@) ==> pod_view(m, cs).health_status == HealthStatus::Error,
        pod_phase(m) != Some("Succeeded"@) && pod_phase(m) != Some("Pending"@)
            && manifest_has_condition_status(m, "Ready"@, "False"@)
            && !manifest_has_condition_status(m, "Ready"@, "True"@) ==> pod_view(
            m,
            cs,
        ).health_status == HealthStatus::Error,
        pod_view(m, cs).health_status == HealthStatus::Healthy ==> pod_phase(m) == Some(
            "Succeeded"@,
        ) || manifest_has_condition_status(m, "Ready"@, "True"@),
{
    reveal_strlit("Succeeded");
    reveal_strlit("Failed");
    reveal_strlit("Pending");
    reveal_strlit("Unknown");
    assert("Succeeded"@.len() == 9 && "Failed"@.len() == 6 && "Pending"@.len() == 7);
}

/// The name of a container status, or `unknown`.
pub open spec fn status_name(st: YamlView) -> Seq<char> {
    or_text(node_text_at(st, seq!["name"@]), "unknown"@)
}

/// A warning for each container that has restarted.
pub open spec fn restart_warnings(sts: Seq<YamlView>) -> Seq<Seq<char>>
    decreases sts.len(),
{
    if sts.len() == 0 {
        Seq::empty()
    } else {
        let init = restart_warnings(sts.drop_last());
        let st = sts.last();
        match node_int_at(st, seq!["restartCount"@]) {
            Some(rc) => if rc > 0 {
                init.push(
                    "Container '"@ + status_name(st) + "' has restarted "@ + decimal(rc as int)
                        + " times"@,
                )
            } else {
                init
            },
            None => init,
        }
    }
}

/// A warning for each `ContainersReady` condition that is `False`.
pub open spec fn not_ready_warnings(conds: Seq<ConditionView>) -> Seq<Seq<char>>
    decreases conds.len(),
{
    if conds.len() == 0 {
        Seq::empty()
    } else {
        let init = not_ready_warnings(conds.drop_last());
        let c = conds.last();
        if c.type_ == "ContainersReady"@ && c.status == "False"@ {
            init.push("Containers not ready: "@ + or_text(c.message, "Unknown reason"@))
        } else {
            init
        }
    }
}

/// The warnings of a pod.
pub open spec fn pod_warnings(m: ManifestView) -> Seq<Seq<char>> {
    if pod_phase(m) == Some("Succeeded"@) {
        Seq::empty()
    } else {
        restart_warnings(container_statuses(m)) + not_ready_warnings(condition_views(m))
    }
}

/// The error of a waiting container, if its reason is a failure.
pub open spec fn waiting_errors(st: YamlView, prefix: Seq<char>) -> Seq<Seq<char>> {
    let head = prefix + " '"@ + status_name(st) + "': "@;
    match node_text_at(st, seq!["state"@, "waiting"@, "reason"@]) {
        Some(r) => {
            let msg = or_text(node_text_at(st, seq!["state"@, "waiting"@, "message"@]), ""@);
            if r == "ImagePullBackOff"@ || r == "ErrImagePull"@ || r
                == "CreateContainerConfigError"@ || r == "InvalidImageName"@ {
                seq![head + r + " - "@ + msg]
            } else if r == "CrashLoopBackOff"@ {
                seq![head + "CrashLoopBackOff - container is crashing repeatedly"@]
            } else {
                Seq::empty()
            }
        },
        None => Seq::empty(),
    }
}

/// The error of a terminated container, if it ended in error or was killed
/// for want of memory.
pub open spec fn terminated_errors(st: YamlView, prefix: Seq<char>) -> Seq<Seq<char>> {
    match node_text_at(st, seq!["state"@, "terminated"@, "reason"@]) {
        Some(r) => if r == "Error"@ || r == "OOMKilled"@ {
            let code = match node_int_at(st, seq!["state"@, "terminated"@, "exitCode"@]) {
                Some(c) => c,
                None => 0,
            };
            let msg = or_text(node_text_at(st, seq!["state"@, "terminated"@, "message"@]), ""@);
            seq![
                prefix + " '"@ + status_name(st) + "': "@ + r + " (exit code: "@ + decimal(
                    code as int,
                ) + ") - "@ + msg,
            ]
        } else {
            Seq::empty()
        },
        None => Seq::empty(),
    }
}

/// The errors of each container status in turn.
pub open spec fn status_errors(sts: Seq<YamlView>, prefix: Seq<char>) -> Seq<Seq<char>>
    decreases sts.len(),
{
    if sts.len() == 0 {
        Seq::empty()
    } else {
        status_errors(sts.drop_last(), prefix) + waiting_errors(sts.last(), prefix)
            + terminated_errors(sts.last(), prefix)
    }
}

/// An error for each `PodScheduled` condition that is `False` with a message.
pub open spec fn scheduling_errors(conds: Seq<ConditionView>) -> Seq<Seq<char>>
    decreases conds.len(),
{
    if conds.len() == 0 {
        Seq::empty()
    } else {
        let init = scheduling_errors(conds.drop_last());
        let c = conds.last();
        match c.message {
            Some(msg) => if c.type_ == "PodScheduled"@ && c.status == "False"@ {
                init.push("Pod scheduling failed: "@ + msg)
            } else {
                init
            },
            None => init,
        }
    }
}

/// An error for each other condition that is `False` with a message.
pub open spec fn failed_condition_errors(conds: Seq<ConditionView>) -> Seq<Seq<char>>
    decreases conds.len(),
{
    if conds.len() == 0 {
        Seq::empty()
    } else {
        let init = failed_condition_errors(conds.drop_last());
        let c = conds.last();
        match c.message {
            Some(msg) => if c.status == "False"@ && c.type_ != "ContainersReady"@ && c.type_
                != "PodScheduled"@ {
                init.push(c.type_ + ": "@ + msg)
            } else {
                init
            },
            None => init,
        }
    }
}

/// The error of a failed pod.
pub open spec fn failed_phase_errors(m: ManifestView) -> Seq<Seq<char>> {
    if pod_phase(m) == Some("Failed"@) {
        match text_of(m, seq!["status"@, "reason"@]) {
            Some(r) => seq!["Pod failed: "@ + r],
            None => seq!["Pod is in Failed state"@],
        }
    } else {
        Seq::empty()
    }
}

/// The errors of a pod.
pub open spec fn pod_errors(m: ManifestView) -> Seq<Seq<char>> {
    if pod_phase(m) == Some("Succeeded"@) {
        Seq::empty()
    } else {
        status_errors(container_statuses(m), "Container"@) + status_errors(
            init_container_statuses(m),
            "Init container"@,
        ) + failed_phase_errors(m) + (if manifest_has_condition_status(
            m,
            "PodScheduled"@,
            "False"@,
        ) {
            scheduling_errors(condition_views(m))
        } else {
            Seq::empty()
        }) + failed_condition_errors(condition_views(m))
    }
}

/// The sum of the restart counts of the statuses that have one.
pub open spec fn restart_total(sts: Seq<YamlView>) -> int
    decreases sts.len(),
{
    if sts.len() == 0 {
        0
    } else {
        restart_total(sts.drop_last()) + match node_int_at(sts.last(), seq!["restartCount"@]) {
            Some(rc) => rc as int,
            None => 0,
        }
    }
}

/// The containers whose current log is not blank, in order.
pub open spec fn logged_containers(cs: Seq<ContainerView>) -> Seq<ContainerView>
    decreases cs.len(),
{
    if cs.len() == 0 {
        Seq::empty()
    } else if is_blank(cs.last().current_log) {
        logged_containers(cs.drop_last())
    } else {
        logged_containers(cs.drop_last()).push(cs.last())
    }
}

/// What a pod with these containers yields.
pub open spec fn pod_view(m: ManifestView, containers: Seq<ContainerView>) -> SnapshotView {
    let ready = manifest_has_condition_status(m, "Ready"@, "True"@);
    SnapshotView {
        health_status: pod_health(m),
        conditions: condition_views(m),
        warnings: pod_warnings(m),
        errors: pod_errors(m),
        summary: Some(
            "Pod "@ + m.name + " - Status: "@ + (if ready {
                "Ready"@
            } else {
                "Not Ready"@
            }) + " - Containers: "@ + decimal(containers.len() as int),
        ),
        key_fields: field_if("phase"@, pod_phase(m)) + seq![
            ("ready"@, if ready {
                "true"@
            } else {
                "false"@
            }),
            ("containers"@, decimal(containers.len() as int)),
            ("restart_count"@, decimal(restart_total(container_statuses(m)))),
        ],
        owner_references: owner_reference_views(m),
        relationships: workload_links(m),
        logs: logged_containers(containers),
        ..base_view(m, "Pod"@, metadata_str(m, "namespace"@))
    }
}

/// A pod with the containers whose logs were gathered.
#[derive(Debug)]
pub struct Pod {
    manifest: Manifest,
    pub containers: Vec<Container>,
}

impl Pod {
    /// The manifest the pod was read from.
    pub closed spec fn manifest_view(self) -> ManifestView {
        self.manifest@
    }

    /// The pod's containers.
    pub closed spec fn containers_view(self) -> Seq<ContainerView> {
        self.containers.deep_view()
    }

    /// A pod with an empty manifest and no containers.
    pub fn new() -> (r: Pod)
        ensures
            r.manifest_view() == (ManifestView { name: Seq::empty(), raw: Seq::empty(), yaml: None }),
            r.containers_view().len() == 0,
    {
        Pod { manifest: Manifest::new(), containers: Vec::new() }
    }

    /// Reads a pod from its manifest; it has no containers yet.
    pub fn from(manifest: Manifest) -> (r: Pod)
        ensures
            r.manifest_view() == manifest@,
            r.containers_view().len() == 0,
    {
        Pod { manifest, containers: Vec::new() }
    }

    /// Adds a container at the end.
    pub fn push_container(&mut self, container: Container)
        ensures
            final(self).manifest_view() == old(self).manifest_view(),
            final(self).containers_view() == old(self).containers_view().push(container@),
    {
        let ghost c = container@;
        self.containers.push(container);
        assert(self.containers.deep_view() =~= old(self).containers.deep_view().push(c));
    }
}

/// Whether some status of the list makes the pod fail.
fn statuses_have_error(sts: &Vec<YamlValue>) -> (r: bool)
    ensures
        r == any_status_error(items_view(sts@)),
{
    let ghost sv = items_view(sts@);
    let mut i: usize = 0;
    while i < sts.len()
        invariant
            i <= sts.len(),
            sv == items_view(sts@),
            forall|k: int| 0 <= k < i ==> !status_is_error(#[trigger] sv[k]),
        decreases sts.len() - i,
    {
        let st = &sts[i];
        assert(sv[i as int] == st@);
        let p1 = keys3("state", "waiting", "reason");
        let p2 = keys3("state", "terminated", "exitCode");
        assert(key_views(p1@) =~= seq!["state"@, "waiting"@, "reason"@]);
        assert(key_views(p2@) =~= seq!["state"@, "terminated"@, "exitCode"@]);
        let fatal = match text_below(st, &p1) {
            Some(r) => {
                let t = r.as_str();
                str_eq(t, "ImagePullBackOff") || str_eq(t, "ErrImagePull") || str_eq(
                    t,
                    "CrashLoopBackOff",
                ) || str_eq(t, "CreateContainerConfigError") || str_eq(t, "InvalidImageName")
            },
            None => false,
        };
        let failed = match int_below(st, &p2) {
            Some(c) => c != 0,
            None => false,
        };
        if fatal || failed {
            assert(status_is_error(sv[i as int]));
            return true;
        }
        i = i + 1;
    }
    false
}

/// Whether some status at a path of the manifest makes the pod fail.
fn statuses_at_have_error(m: &Manifest, keys: &[&str]) -> (r: bool)
    ensures
        r == any_status_error(
            match vec_of(doc_at(m@, key_views(keys@))) {
                Some(v) => v,
                None => Seq::empty(),
            },
        ),
{
    match m.at(keys) {
        Some(n) => match n.as_vec() {
            Some(sts) => statuses_have_error(sts),
            None => false,
        },
        None => false,
    }
}

/// The health of a pod.
fn pod_health_of(m: &Manifest) -> (r: HealthStatus)
    ensures
        r == pod_health(m@),
{
    let phase = text_at(m, &keys2("status", "phase"));
    let succeeded = match &phase {
        Some(p) => str_eq(p.as_str(), "Succeeded"),
        None => false,
    };
    if succeeded {
        return HealthStatus::Healthy;
    }
    let pc = keys2("status", "containerStatuses");
    let pi = keys2("status", "initContainerStatuses");
    assert(key_views(pc@) =~= seq!["status"@, "containerStatuses"@]);
    assert(key_views(pi@) =~= seq!["status"@, "initContainerStatuses"@]);
    if statuses_at_have_error(m, &pc) || statuses_at_have_error(m, &pi) {
        return HealthStatus::Error;
    }
    match &phase {
        Some(p) => {
            let t = p.as_str();
            if str_eq(t, "Failed") || str_eq(t, "Unknown") {
                return HealthStatus::Error;
            }
            if str_eq(t, "Pending") {
                if m.has_condition_status("PodScheduled", "False") {
                    return HealthStatus::Error;
                }
                return HealthStatus::Warning;
            }
        },
        None => {},
    }
    if m.has_condition_status("Ready", "True") {
        HealthStatus::Healthy
    } else if m.has_condition_status("Ready", "False") {
        HealthStatus::Error
    } else {
        HealthStatus::Unknown
    }
}

/// The statuses at a path of the manifest, or none.
fn statuses_at<'a>(m: &'a Manifest, keys: &[&str]) -> (r: Option<&'a Vec<YamlValue>>)
    ensures
        match r {
            Some(v) => vec_of(doc_at(m@, key_views(keys@))) == Some(items_view(v@)),
            None => vec_of(doc_at(m@, key_views(keys@))) is None,
        },
{
    match m.at(keys) {
        Some(n) => n.as_vec(),
        None => None,
    }
}

/// The restart warnings of the container statuses.
fn restart_warnings_of(sts: &Vec<YamlValue>) -> (r: Vec<String>)
    ensures
        r.deep_view() == restart_warnings(items_view(sts@)),
{
    let ghost sv = items_view(sts@);
    let mut out: Vec<String> = Vec::new();
    let mut i: usize = 0;
    assert(sv.take(0) =~= Seq::<YamlView>::empty());
    while i < sts.len()
        invariant
            i <= sts.len(),
            sv == items_view(sts@),
            out.deep_view() == restart_warnings(sv.take(i as int)),
        decreases sts.len() - i,
    {
        let st = &sts[i];
        assert(sv[i as int] == st@);
        assert(sv.take(i + 1).drop_last() =~= sv.take(i as int));
        let pr = keys1("restartCount");
        let pn = keys1("name");
        assert(key_views(pr@) =~= seq!["restartCount"@]);
        assert(key_views(pn@) =~= seq!["name"@]);
        match int_below(st, &pr) {
            Some(rc) => {
                if rc > 0 {
                    let name = text_below(st, &pn);
                    let mut w = join3("Container '", text_or(&name, "unknown"), "' has restarted ");
                    w.append(i64_to_text(rc).as_str());
                    w.append(" times");
                    push_text(&mut out, w);
                }
            },
            None => {},
        }
        i = i + 1;
    }
    assert(sv.take(sts.len() as int) =~= sv);
    out
}

/// The warnings for `ContainersReady` conditions that are `False`.
fn not_ready_warnings_of(conds: &Vec<Condition>) -> (r: Vec<String>)
    ensures
        r.deep_view() == not_ready_warnings(conds.deep_view()),
{
    let ghost cv = conds.deep_view();
    let mut out: Vec<String> = Vec::new();
    let mut i: usize = 0;
    assert(cv.take(0) =~= Seq::<ConditionView>::empty());
    while i < conds.len()
        invariant
            i <= conds.len(),
            cv == conds.deep_view(),
            out.deep_view() == not_ready_warnings(cv.take(i as int)),
        decreases conds.len() - i,
    {
        let c = &conds[i];
        assert(cv[i as int] == c@);
        assert(cv.take(i + 1).drop_last() =~= cv.take(i as int));
        if str_eq(c.type_.as_str(), "ContainersReady") && str_eq(c.status.as_str(), "False") {
            push_text(&mut out, join2("Containers not ready: ", text_or(&c.message, "Unknown reason")));
        }
        i = i + 1;
    }
    assert(cv.take(conds.len() as int) =~= cv);
    out
}

/// The errors of one container status.
fn one_status_errors(st: &YamlValue, prefix: &str) -> (r: Vec<String>)
    ensures
        r.deep_view() == waiting_errors(st@, prefix@) + terminated_errors(st@, prefix@),
{
    proof {
        reveal_strlit("");
    }
    let mut out: Vec<String> = Vec::new();
    let pn = keys1("name");
    assert(key_views(pn@) =~= seq!["name"@]);
    let name = text_below(st, &pn);
    let mut head = join3(prefix, " '", text_or(&name, "unknown"));
    head.append("': ");
    let pw = keys3("state", "waiting", "reason");
    let pwm = keys3("state", "waiting", "message");
    let pt = keys3("state", "terminated", "reason");
    let ptc = keys3("state", "terminated", "exitCode");
    let ptm = keys3("state", "terminated", "message");
    assert(key_views(pw@) =~= seq!["state"@, "waiting"@, "reason"@]);
    assert(key_views(pwm@) =~= seq!["state"@, "waiting"@, "message"@]);
    assert(key_views(pt@) =~= seq!["state"@, "terminated"@, "reason"@]);
    assert(key_views(ptc@) =~= seq!["state"@, "terminated"@, "exitCode"@]);
    assert(key_views(ptm@) =~= seq!["state"@, "terminated"@, "message"@]);
    match text_below(st, &pw) {
        Some(r) => {
            let t = r.as_str();
            let msg = text_below(st, &pwm);
            if str_eq(t, "ImagePullBackOff") || str_eq(t, "ErrImagePull") || str_eq(
                t,
                "CreateContainerConfigError",
            ) || str_eq(t, "InvalidImageName") {
                let mut e = copy_string(&head);
                e.append(t);
                e.append(" - ");
                e.append(text_or(&msg, ""));
                push_text(&mut out, e);
            } else if str_eq(t, "CrashLoopBackOff") {
                let mut e = copy_string(&head);
                e.append("CrashLoopBackOff - container is crashing repeatedly");
                push_text(&mut out, e);
            }
        },
        None => {},
    }
    let ghost mid = out.deep_view();
    match text_below(st, &pt) {
        Some(r) => {
            let t = r.as_str();
            if str_eq(t, "Error") || str_eq(t, "OOMKilled") {
                let code = match int_below(st, &ptc) {
                    Some(c) => c,
                    None => 0,
                };
                let msg = text_below(st, &ptm);
                let mut e = copy_string(&head);
                e.append(t);
                e.append(" (exit code: ");
                e.append(i64_to_text(code).as_str());
                e.append(") - ");
                e.append(text_or(&msg, ""));
                push_text(&mut out, e);
            }
        },
        None => {},
    }
    proof {
        assert(mid =~= waiting_errors(st@, prefix@));
        assert(out.deep_view() =~= waiting_errors(st@, prefix@) + terminated_errors(st@, prefix@));
    }
    out
}

/// Appends all of `b` to `a`.
fn append_texts(a: &mut Vec<String>, b: Vec<String>)
    ensures
        final(a).deep_view() == old(a).deep_view() + b.deep_view(),
{
    let ghost bv = b.deep_view();
    let mut b = b;
    a.append(&mut b);
    assert(a.deep_view() =~= old(a).deep_view() + bv);
}

/// The errors of each container status in turn.
fn status_errors_of(sts: &Vec<YamlValue>, prefix: &str) -> (r: Vec<String>)
    ensures
        r.deep_view() == status_errors(items_view(sts@), prefix@),
{
    let ghost sv = items_view(sts@);
    let mut out: Vec<String> = Vec::new();
    let mut i: usize = 0;
    assert(sv.take(0) =~= Seq::<YamlView>::empty());
    while i < sts.len()
        invariant
            i <= sts.len(),
            sv == items_view(sts@),
            out.deep_view() == status_errors(sv.take(i as int), prefix@),
        decreases sts.len() - i,
    {
        assert(sv[i as int] == sts@[i as int]@);
        assert(sv.take(i + 1).drop_last() =~= sv.take(i as int));
        let errs = one_status_errors(&sts[i], prefix);
        let ghost before = out.deep_view();
        append_texts(&mut out, errs);
        assert(out.deep_view() =~= status_errors(sv.take(i + 1), prefix@));
        i = i + 1;
    }
    assert(sv.take(sts.len() as int) =~= sv);
    out
}

/// The scheduling errors of the conditions.
fn scheduling_errors_of(conds: &Vec<Condition>) -> (r: Vec<String>)
    ensures
        r.deep_view() == scheduling_errors(conds.deep_view()),
{
    let ghost cv = conds.deep_view();
    let mut out: Vec<String> = Vec::new();
    let mut i: usize = 0;
    assert(cv.take(0) =~= Seq::<ConditionView>::empty());
    while i < conds.len()
        invariant
            i <= conds.len(),
            cv == conds.deep_view(),
            out.deep_view() == scheduling_errors(cv.take(i as int)),
        decreases conds.len() - i,
    {
        let c = &conds[i];
        assert(cv[i as int] == c@);
        assert(cv.take(i + 1).drop_last() =~= cv.take(i as int));
        match &c.message {
            Some(msg) => {
                if str_eq(c.type_.as_str(), "PodScheduled") && str_eq(c.status.as_str(), "False") {
                    push_text(&mut out, join2("Pod scheduling failed: ", msg.as_str()));
                }
            },
            None => {},
        }
        i = i + 1;
    }
    assert(cv.take(conds.len() as int) =~= cv);
    out
}

/// The errors of the other failed conditions.
fn failed_condition_errors_of(conds: &Vec<Condition>) -> (r: Vec<String>)
    ensures
        r.deep_view() == failed_condition_errors(conds.deep_view()),
{
    let ghost cv = conds.deep_view();
    let mut out: Vec<String> = Vec::new();
    let mut i: usize = 0;
    assert(cv.take(0) =~= Seq::<ConditionView>::empty());
    while i < conds.len()
        invariant
            i <= conds.len(),
            cv == conds.deep_view(),
            out.deep_view() == failed_condition_errors(cv.take(i as int)),
        decreases conds.len() - i,
    {
        let c = &conds[i];
        assert(cv[i as int] == c@);
        assert(cv.take(i + 1).drop_last() =~= cv.take(i as int));
        match &c.message {
            Some(msg) => {
                let t = c.type_.as_str();
                if str_eq(c.status.as_str(), "False") && !str_eq(t, "ContainersReady") && !str_eq(
                    t,
                    "PodScheduled",
                ) {
                    push_text(&mut out, join3(t, ": ", msg.as_str()));
                }
            },
            None => {},
        }
        i = i + 1;
    }
    assert(cv.take(conds.len() as int) =~= cv);
    out
}

/// The warnings of a pod.
fn pod_warnings_of(m: &Manifest, conds: &Vec<Condition>) -> (r: Vec<String>)
    requires
        conds.deep_view() == condition_views(m@),
    ensures
        r.deep_view() == pod_warnings(m@),
{
    let phase = text_at(m, &keys2("status", "phase"));
    let succeeded = match &phase {
        Some(p) => str_eq(p.as_str(), "Succeeded"),
        None => false,
    };
    if succeeded {
        let out: Vec<String> = Vec::new();
        assert(out.deep_view() =~= Seq::<Seq<char>>::empty());
        return out;
    }
    let pc = keys2("status", "containerStatuses");
    assert(key_views(pc@) =~= seq!["status"@, "containerStatuses"@]);
    let mut out = match statuses_at(m, &pc) {
        Some(sts) => restart_warnings_of(sts),
        None => {
            let v: Vec<String> = Vec::new();
            assert(v.deep_view() =~= restart_warnings(Seq::<YamlView>::empty()));
            v
        },
    };
    append_texts(&mut out, not_ready_warnings_of(conds));
    out
}

/// The errors of a pod.
fn pod_errors_of(m: &Manifest, conds: &Vec<Condition>) -> (r: Vec<String>)
    requires
        conds.deep_view() == condition_views(m@),
    ensures
        r.deep_view() == pod_errors(m@),
{
    let phase = text_at(m, &keys2("status", "phase"));
    let succeeded = match &phase {
        Some(p) => str_eq(p.as_str(), "Succeeded"),
        None => false,
    };
    if succeeded {
        let out: Vec<String> = Vec::new();
        assert(out.deep_view() =~= Seq::<Seq<char>>::empty());
        return out;
    }
    let pc = keys2("status", "containerStatuses");
    let pi = keys2("status", "initContainerStatuses");
    assert(key_views(pc@) =~= seq!["status"@, "containerStatuses"@]);
    assert(key_views(pi@) =~= seq!["status"@, "initContainerStatuses"@]);
    let mut out = match statuses_at(m, &pc) {
        Some(sts) => status_errors_of(sts, "Container"),
        None => {
            let v: Vec<String> = Vec::new();
            assert(v.deep_view() =~= status_errors(Seq::<YamlView>::empty(), "Container"@));
            v
        },
    };
    match statuses_at(m, &pi) {
        Some(sts) => append_texts(&mut out, status_errors_of(sts, "Init container")),
        None => {
            assert(status_errors(Seq::<YamlView>::empty(), "Init container"@) =~= Seq::<
                Seq<char>,
            >::empty());
            assert(out.deep_view() + Seq::<Seq<char>>::empty() =~= out.deep_view());
        },
    }
    let ghost before_phase = out.deep_view();
    let is_failed = match &phase {
        Some(p) => str_eq(p.as_str(), "Failed"),
        None => false,
    };
    if is_failed {
        match text_at(m, &keys2("status", "reason")) {
            Some(r) => push_text(&mut out, join2("Pod failed: ", r.as_str())),
            None => push_text(&mut out, String::from_str("Pod is in Failed state")),
        }
    }
    assert(out.deep_view() =~= before_phase + failed_phase_errors(m@));
    if m.has_condition_status("PodScheduled", "False") {
        append_texts(&mut out, scheduling_errors_of(conds));
    } else {
        assert(out.deep_view() + Seq::<Seq<char>>::empty() =~= out.deep_view());
    }
    append_texts(&mut out, failed_condition_errors_of(conds));
    out
}

/// The sum of the restart counts of the container statuses.
fn restart_total_of(sts: &Vec<YamlValue>) -> (r: i128)
    ensures
        r == restart_total(items_view(sts@)),
{
    let ghost sv = items_view(sts@);
    let mut total: i128 = 0;
    let mut i: usize = 0;
    assert(sv.take(0) =~= Seq::<YamlView>::empty());
    while i < sts.len()
        invariant
            i <= sts.len(),
            sv == items_view(sts@),
            total == restart_total(sv.take(i as int)),
            -(i * 0x8000_0000_0000_0000int) <= total <= i * 0x8000_0000_0000_0000int,
        decreases sts.len() - i,
    {
        assert(sv[i as int] == sts@[i as int]@);
        assert(sv.take(i + 1).drop_last() =~= sv.take(i as int));
        let pr = keys1("restartCount");
        assert(key_views(pr@) =~= seq!["restartCount"@]);
        match int_below(&sts[i], &pr) {
            Some(rc) => {
                total = total + rc as i128;
            },
            None => {},
        }
        i = i + 1;
    }
    assert(sv.take(sts.len() as int) =~= sv);
    total
}

/// The containers whose current log is not blank.
fn logged_containers_of(cs: &Vec<Container>) -> (r: Vec<Container>)
    ensures
        r.deep_view() == logged_containers(cs.deep_view()),
{
    let ghost cv = cs.deep_view();
    let mut out: Vec<Container> = Vec::new();
    let mut i: usize = 0;
    assert(cv.take(0) =~= Seq::<ContainerView>::empty());
    while i < cs.len()
        invariant
            i <= cs.len(),
            cv == cs.deep_view(),
            out.deep_view() == logged_containers(cv.take(i as int)),
        decreases cs.len() - i,
    {
        let c = &cs[i];
        assert(cv[i as int] == c@);
        assert(cv.take(i + 1).drop_last() =~= cv.take(i as int));
        if !text_is_blank(c.current_log.as_str()) {
            let copy = Container {
                name: copy_string(&c.name),
                current_log: copy_string(&c.current_log),
                current_log_path: copy_opt_string(&c.current_log_path),
            };
            let ghost before = out.deep_view();
            let ghost v = copy@;
            out.push(copy);
            assert(out.deep_view() =~= before.push(v));
        }
        i = i + 1;
    }
    assert(cv.take(cs.len() as int) =~= cv);
    out
}

impl ResourceV2 for Pod {
    open spec fn describe(&self) -> SnapshotView {
        pod_view(self.manifest_view(), self.containers_view())
    }

    fn snapshot(&self) -> (r: ResourceSnapshot) {
        let m = &self.manifest;
        let namespace = m.namespace();
        let conds = conditions_of(m);
        let ready = m.has_condition_status("Ready", "True");
        let mut s = base_snapshot(m, "Pod", &namespace);
        s.health_status = pod_health_of(m);
        s.warnings = pod_warnings_of(m, &conds);
        s.errors = pod_errors_of(m, &conds);
        let count = usize_to_text(self.containers.len());
        let mut summary = join3("Pod ", m.name.as_str(), " - Status: ");
        summary.append(if ready {
            "Ready"
        } else {
            "Not Ready"
        });
        summary.append(" - Containers: ");
        summary.append(count.as_str());
        s.summary = Some(summary);
        let phase = text_at(m, &keys2("status", "phase"));
        push_field_if(&mut s.key_fields, "phase", &phase);
        push_field(&mut s.key_fields, "ready", bool_to_text(ready));
        push_field(&mut s.key_fields, "containers", count);
        let pc = keys2("status", "containerStatuses");
        assert(key_views(pc@) =~= seq!["status"@, "containerStatuses"@]);
        let total: i128 = match statuses_at(m, &pc) {
            Some(sts) => restart_total_of(sts),
            None => 0,
        };
        push_field(&mut s.key_fields, "restart_count", i128_to_text(total));
        s.conditions = conds;
        s.owner_references = owner_references_of(m);
        s.relationships = workload_dependency_relationships(m);
        s.logs = logged_containers_of(&self.containers);
        proof {
            let v = pod_view(m@, self.containers.deep_view());
            assert(s@.key_fields =~= v.key_fields);
            assert(s@.summary == v.summary);
        }
        s
    }
}

// ---------------------------------------------------------------------------
// The first view of each kind
// ---------------------------------------------------------------------------

impl Resource for Pod {
    open spec fn failing(&self) -> bool {
        false
    }

    open spec fn warned(&self) -> bool {
        false
    }

    open spec fn flagged(&self) -> Seq<Seq<char>> {
        Seq::empty()
    }

    fn is_error(&self) -> (r: bool) {
        false
    }

    fn is_warning(&self) -> (r: bool) {
        false
    }

    fn conditions(&self) -> (r: Vec<String>) {
        no_names()
    }
}

} // verus!
