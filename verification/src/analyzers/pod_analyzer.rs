//! Health analyzer for Pod resources
use super::common::{
    concat_map, extend_analysis, has_issue_titled, has_recommendation_titled, lemma_any_add,
    lemma_concat_map_any, lemma_concat_map_step, namespace_or_default, ns_or_default,
    reason_or_unknown, sat_sub, deduct, seq_any, some_condition, status_base_score, status_score,
};
use super::HealthAnalyzer;
use crate::resources::{
    or_text, str_eq, text_or, Condition, ConditionView, Container, ContainerView,
    ResourceSnapshot, SnapshotView,
};
use crate::text::{first_line_containing, first_line_with, lines, seq_contains, str_contains};
use crate::types::{
    new_analysis, new_issue, new_recommendation, HealthAnalysis, HealthAnalysisView, Issue,
    IssueCategory, IssueSeverity, IssueView, Recommendation, RecommendationView,
};
use vstd::prelude::*;

verus! {

pub struct PodAnalyzer;

/// A log that shows a binary failing for want of a newer glibc.
pub open spec fn glibc_failure(log: Seq<char>) -> bool {
    &&& seq_contains(log, "libc.so.6: version `GLIBC_"@)
    &&& seq_contains(log, "not found"@)
    &&& seq_contains(log, "required by"@)
}

/// Some container log shows the glibc failure.
pub open spec fn any_glibc_failure(logs: Seq<ContainerView>) -> bool {
    exists|i: int| 0 <= i < logs.len() && glibc_failure(#[trigger] logs[i].current_log)
}

/// The pod health score: 100, less 20/50/10 for a Warning/Error/Unknown
/// status, less 25 when a container log shows the glibc failure.
pub open spec fn pod_health_score(r: SnapshotView) -> u8 {
    let base = status_score(r.health_status, 20, 50, 10);
    if any_glibc_failure(r.logs) {
        sat_sub(base, 25)
    } else {
        base
    }
}

/// The command that shows the logs of the pod.
pub open spec fn pod_logs_command(r: SnapshotView) -> Seq<char> {
    "oc logs pod/"@ + r.name + " -n "@ + ns_or_default(r)
}

pub open spec fn pod_not_ready(c: ConditionView) -> bool {
    c.type_ == "Ready"@ && c.status != "True"@
}

pub open spec fn pod_condition_issues(c: ConditionView) -> Seq<IssueView> {
    if pod_not_ready(c) {
        seq![
            new_issue(
                IssueSeverity::Error,
                IssueCategory::Availability,
                "Pod Not Ready"@,
                "Pod is not ready: "@ + reason_or_unknown(c),
            ),
        ]
    } else {
        seq![]
    }
}

pub open spec fn pod_condition_recommendations(r: SnapshotView, c: ConditionView) -> Seq<
    RecommendationView,
> {
    if pod_not_ready(c) {
        seq![
            new_recommendation("Check Pod Status"@, "Investigate pod logs and events"@).with_action(
                pod_logs_command(r),
            ),
        ]
    } else {
        seq![]
    }
}

/// The line of the log that names the missing glibc version, or a
/// general explanation.
pub open spec fn glibc_detail(log: Seq<char>) -> Seq<char> {
    or_text(
        first_line_with(lines(log), "GLIBC_"@),
        "Container binary requires a newer glibc than the runtime image provides"@,
    )
}

pub open spec fn pod_log_issues(l: ContainerView) -> Seq<IssueView> {
    if glibc_failure(l.current_log) {
        seq![
            new_issue(
                IssueSeverity::Critical,
                IssueCategory::Configuration,
                "Runtime Library Mismatch"@,
                "Container '"@ + l.name
                    + "' failed to start because the runtime image is missing required glibc symbols. "@
                    + glibc_detail(l.current_log),
            ).with_component(l.name),
        ]
    } else {
        seq![]
    }
}

pub open spec fn pod_log_recommendations(r: SnapshotView, l: ContainerView) -> Seq<
    RecommendationView,
> {
    if glibc_failure(l.current_log) {
        seq![
            new_recommendation(
                "Rebuild or Replace Container Image"@,
                "The container binary was built against a newer glibc than the image/runtime provides. Align the binary, base image, and cluster-supported runtime."@,
            ).with_action(pod_logs_command(r)),
        ]
    } else {
        seq![]
    }
}

pub open spec fn pod_summary(score: u8) -> Seq<char> {
    if score >= 90 {
        "Pod is healthy and running normally"@
    } else if score >= 70 {
        "Pod has minor issues"@
    } else {
        "Pod has significant issues"@
    }
}

/// The full analysis of a pod: condition findings first, then log findings.
pub open spec fn pod_analysis(r: SnapshotView) -> HealthAnalysisView {
    let score = pod_health_score(r);
    extend_analysis(
        extend_analysis(
            new_analysis(score, pod_summary(score)),
            concat_map(r.conditions, |c: ConditionView| pod_condition_issues(c)),
            concat_map(r.conditions, |c: ConditionView| pod_condition_recommendations(r, c)),
        ),
        concat_map(r.logs, |l: ContainerView| pod_log_issues(l)),
        concat_map(r.logs, |l: ContainerView| pod_log_recommendations(r, l)),
    )
}

/// A condition that says the pod is not ready: type Ready, any status but
/// True.
pub open spec fn says_not_ready(c: ConditionView) -> bool {
    c.type_ == "Ready"@ && c.status != "True"@
}

/// A pod's analysis holds a "Pod Not Ready" issue exactly when one of its
/// conditions has type Ready and a status other than True; every such
/// issue is an Error, and "Check Pod Status" is recommended exactly then.
pub proof fn lemma_pod_not_ready_issue(r: SnapshotView)
    ensures
        has_issue_titled(pod_analysis(r).issues, "Pod Not Ready"@) <==> some_condition(
            r.conditions,
            |c: ConditionView| says_not_ready(c),
        ),
        forall|k: int|
            0 <= k < pod_analysis(r).issues.len() && #[trigger] pod_analysis(r).issues[k].title
                == "Pod Not Ready"@ ==> pod_analysis(r).issues[k].severity == IssueSeverity::Error,
        has_recommendation_titled(pod_analysis(r).recommendations, "Check Pod Status"@)
            <==> some_condition(r.conditions, |c: ConditionView| says_not_ready(c)),
{
    reveal_strlit("Pod Not Ready");
    reveal_strlit("Runtime Library Mismatch");
    reveal_strlit("Check Pod Status");
    reveal_strlit("Rebuild or Replace Container Image");
    assert("Runtime Library Mismatch"@.len() != "Pod Not Ready"@.len());
    assert("Rebuild or Replace Container Image"@.len() != "Check Pod Status"@.len());
    let a = pod_analysis(r);
    let fi = |c: ConditionView| pod_condition_issues(c);
    let fr = |c: ConditionView| pod_condition_recommendations(r, c);
    let li = |l: ContainerView| pod_log_issues(l);
    let lr = |l: ContainerView| pod_log_recommendations(r, l);
    let pi = |i: IssueView| i.title == "Pod Not Ready"@;
    let pbad = |i: IssueView| i.title == "Pod Not Ready"@ && i.severity != IssueSeverity::Error;
    let pr = |x: RecommendationView| x.title == "Check Pod Status"@;
    assert(a.issues =~= concat_map(r.conditions, fi) + concat_map(r.logs, li));
    assert(a.recommendations =~= concat_map(r.conditions, fr) + concat_map(r.logs, lr));
    lemma_any_add(concat_map(r.conditions, fi), concat_map(r.logs, li), pi);
    lemma_any_add(concat_map(r.conditions, fi), concat_map(r.logs, li), pbad);
    lemma_any_add(concat_map(r.conditions, fr), concat_map(r.logs, lr), pr);
    lemma_concat_map_any(r.conditions, fi, pi);
    lemma_concat_map_any(r.conditions, fi, pbad);
    lemma_concat_map_any(r.conditions, fr, pr);
    lemma_concat_map_any(r.logs, li, pi);
    lemma_concat_map_any(r.logs, li, pbad);
    lemma_concat_map_any(r.logs, lr, pr);
    assert forall|c: ConditionView| #[trigger] seq_any(fi(c), pi) <==> says_not_ready(c) by {
        if says_not_ready(c) {
            assert(fi(c)[0].title == "Pod Not Ready"@);
        }
        if seq_any(fi(c), pi) {
            let k = choose|k: int| 0 <= k < fi(c).len() && pi(#[trigger] fi(c)[k]);
            assert(fi(c).len() == 1);
        }
    }
    assert forall|c: ConditionView| !#[trigger] seq_any(fi(c), pbad) by {
        if seq_any(fi(c), pbad) {
            let k = choose|k: int| 0 <= k < fi(c).len() && pbad(#[trigger] fi(c)[k]);
            assert(fi(c).len() == 1);
        }
    }
    assert forall|c: ConditionView| #[trigger] seq_any(fr(c), pr) <==> says_not_ready(c) by {
        if says_not_ready(c) {
            assert(fr(c)[0].title == "Check Pod Status"@);
        }
        if seq_any(fr(c), pr) {
            let k = choose|k: int| 0 <= k < fr(c).len() && pr(#[trigger] fr(c)[k]);
            assert(fr(c).len() == 1);
        }
    }
    assert forall|l: ContainerView| !#[trigger] seq_any(li(l), pi) && !seq_any(li(l), pbad) by {
        if seq_any(li(l), pi) || seq_any(li(l), pbad) {
            assert(li(l).len() == 1);
            assert(li(l)[0].title == "Runtime Library Mismatch"@);
        }
    }
    assert forall|l: ContainerView| !#[trigger] seq_any(lr(l), pr) by {
        if seq_any(lr(l), pr) {
            assert(lr(l).len() == 1);
            assert(lr(l)[0].title == "Rebuild or Replace Container Image"@);
        }
    }
    if has_issue_titled(a.issues, "Pod Not Ready"@) {
        let k = choose|k: int| 0 <= k < a.issues.len() && #[trigger] a.issues[k].title == "Pod Not Ready"@;
        assert(pi(a.issues[k]));
        assert(!seq_any(concat_map(r.logs, li), pi));
        let i = choose|i: int| 0 <= i < r.conditions.len() && seq_any(fi(#[trigger] r.conditions[i]), pi);
        assert(says_not_ready(r.conditions[i]));
    }
    if some_condition(r.conditions, |c: ConditionView| says_not_ready(c)) {
        let j = choose|j: int| 0 <= j < r.conditions.len() && says_not_ready(#[trigger] r.conditions[j]);
        assert(seq_any(fi(r.conditions[j]), pi));
        assert(seq_any(fr(r.conditions[j]), pr));
        let k = choose|k: int| 0 <= k < a.issues.len() && pi(#[trigger] a.issues[k]);
        assert(a.issues[k].title == "Pod Not Ready"@);
        let q = choose|q: int| 0 <= q < a.recommendations.len() && pr(#[trigger] a.recommendations[q]);
        assert(a.recommendations[q].title == "Check Pod Status"@);
    }
    if has_recommendation_titled(a.recommendations, "Check Pod Status"@) {
        let k = choose|k: int| 0 <= k < a.recommendations.len() && #[trigger] a.recommendations[k].title == "Check Pod Status"@;
        assert(pr(a.recommendations[k]));
        assert(!seq_any(concat_map(r.logs, lr), pr));
        let i = choose|i: int| 0 <= i < r.conditions.len() && seq_any(fr(#[trigger] r.conditions[i]), pr);
        assert(says_not_ready(r.conditions[i]));
    }
    assert forall|k: int|
        0 <= k < a.issues.len() && #[trigger] a.issues[k].title == "Pod Not Ready"@ implies a.issues[k].severity
            == IssueSeverity::Error by {
        if a.issues[k].severity != IssueSeverity::Error {
            assert(pbad(a.issues[k]));
            assert(seq_any(a.issues, pbad));
        }
    }
}

/// `log.contains(..)` for the three parts of the glibc failure message.
pub fn contains_glibc_runtime_failure(log: &str) -> (r: bool)
    ensures
        r == glibc_failure(log@),
{
    str_contains(log, "libc.so.6: version `GLIBC_") && str_contains(log, "not found")
        && str_contains(log, "required by")
}

/// The first line of the log that contains `pattern`, trimmed.
pub fn first_matching_log_line(log: &str, pattern: &str) -> (r: Option<String>)
    ensures
        r.deep_view() == first_line_with(lines(log@), pattern@),
{
    first_line_containing(log, pattern)
}

fn pod_logs_action(resource: &ResourceSnapshot) -> (r: String)
    ensures
        r@ == pod_logs_command(resource@),
{
    let mut a = String::from_str("oc logs pod/");
    a.append(resource.name.as_str());
    a.append(" -n ");
    a.append(namespace_or_default(resource));
    a
}

fn record_pod_condition(resource: &ResourceSnapshot, c: &Condition, analysis: &mut HealthAnalysis)
    ensures
        final(analysis)@ == extend_analysis(
            old(analysis)@,
            pod_condition_issues(c@),
            pod_condition_recommendations(resource@, c@),
        ),
{
    let ghost start = analysis@;
    if str_eq(c.type_.as_str(), "Ready") && !str_eq(c.status.as_str(), "True") {
        let mut description = String::from_str("Pod is not ready: ");
        description.append(text_or(&c.reason, "Unknown"));
        analysis.add_issue(
            Issue::new(
                IssueSeverity::Error,
                IssueCategory::Availability,
                "Pod Not Ready",
                description.as_str(),
            ),
        );
        let action = pod_logs_action(resource);
        analysis.add_recommendation(
            Recommendation::new("Check Pod Status", "Investigate pod logs and events").with_action(
                action.as_str(),
            ),
        );
    }
    assert(analysis@.issues =~= start.issues + pod_condition_issues(c@));
    assert(analysis@.recommendations =~= start.recommendations + pod_condition_recommendations(resource@, c@));
}

fn record_pod_log(resource: &ResourceSnapshot, l: &Container, analysis: &mut HealthAnalysis)
    ensures
        final(analysis)@ == extend_analysis(
            old(analysis)@,
            pod_log_issues(l@),
            pod_log_recommendations(resource@, l@),
        ),
{
    let ghost start = analysis@;
    if contains_glibc_runtime_failure(l.current_log.as_str()) {
        let found = first_matching_log_line(l.current_log.as_str(), "GLIBC_");
        let detail = text_or(
            &found,
            "Container binary requires a newer glibc than the runtime image provides",
        );
        let mut description = String::from_str("Container '");
        description.append(l.name.as_str());
        description.append(
            "' failed to start because the runtime image is missing required glibc symbols. ",
        );
        description.append(detail);
        analysis.add_issue(
            Issue::new(
                IssueSeverity::Critical,
                IssueCategory::Configuration,
                "Runtime Library Mismatch",
                description.as_str(),
            ).with_component(l.name.as_str()),
        );
        let action = pod_logs_action(resource);
        analysis.add_recommendation(
            Recommendation::new(
                "Rebuild or Replace Container Image",
                "The container binary was built against a newer glibc than the image/runtime provides. Align the binary, base image, and cluster-supported runtime.",
            ).with_action(action.as_str()),
        );
    }
    assert(analysis@.issues =~= start.issues + pod_log_issues(l@));
    assert(analysis@.recommendations =~= start.recommendations + pod_log_recommendations(resource@, l@));
}

impl PodAnalyzer {
    pub fn new() -> (r: PodAnalyzer) {
        PodAnalyzer
    }

    fn calculate_health_score(&self, resource: &ResourceSnapshot) -> (r: u8)
        ensures
            r == pod_health_score(resource@),
    {
        let score = status_base_score(resource.health_status, 20, 50, 10);
        let mut i: usize = 0;
        while i < resource.logs.len()
            invariant
                i <= resource.logs.len(),
                forall|k: int| 0 <= k < i ==> !glibc_failure(#[trigger] resource@.logs[k].current_log),
            decreases resource.logs.len() - i,
        {
            assert(resource@.logs[i as int] == resource.logs[i as int]@);
            if contains_glibc_runtime_failure(resource.logs[i].current_log.as_str()) {
                assert(glibc_failure(resource@.logs[i as int].current_log));
                return deduct(score, 25);
            }
            i = i + 1;
        }
        score
    }
}

impl HealthAnalyzer for PodAnalyzer {
    open spec fn analysis_of(&self, resource: SnapshotView) -> HealthAnalysisView {
        pod_analysis(resource)
    }

    open spec fn kinds(&self) -> Seq<Seq<char>> {
        seq!["Pod"@]
    }

    fn analyze(&self, resource: &ResourceSnapshot) -> (r: HealthAnalysis) {
        let health_score = self.calculate_health_score(resource);
        let summary = if health_score >= 90 {
            "Pod is healthy and running normally"
        } else if health_score >= 70 {
            "Pod has minor issues"
        } else {
            "Pod has significant issues"
        };
        let mut analysis = HealthAnalysis::new(health_score, summary);
        let ghost start = analysis@;
        let ghost r = resource@;
        let ghost conds = resource@.conditions;
        let ghost fi = |c: ConditionView| pod_condition_issues(c);
        let ghost fr = |c: ConditionView| pod_condition_recommendations(r, c);
        assert(analysis@ =~= extend_analysis(start, concat_map(conds.take(0), fi), concat_map(conds.take(0), fr)));
        let mut i: usize = 0;
        while i < resource.conditions.len()
            invariant
                i <= resource.conditions.len(),
                conds == resource@.conditions,
                r == resource@,
                analysis@ == extend_analysis(
                    start,
                    concat_map(conds.take(i as int), fi),
                    concat_map(conds.take(i as int), fr),
                ),
            decreases resource.conditions.len() - i,
        {
            record_pod_condition(resource, &resource.conditions[i], &mut analysis);
            proof {
                lemma_concat_map_step(conds, fi, i as int);
                lemma_concat_map_step(conds, fr, i as int);
                assert(conds[i as int] == resource.conditions[i as int]@);
                assert(analysis@.issues =~= start.issues + concat_map(conds.take(i + 1), fi));
                assert(analysis@.recommendations =~= start.recommendations + concat_map(conds.take(i + 1), fr));
            }
            i = i + 1;
        }
        assert(conds.take(i as int) =~= conds);
        let ghost mid = analysis@;
        let ghost logs = resource@.logs;
        let ghost gi = |l: ContainerView| pod_log_issues(l);
        let ghost gr = |l: ContainerView| pod_log_recommendations(r, l);
        assert(analysis@ =~= extend_analysis(mid, concat_map(logs.take(0), gi), concat_map(logs.take(0), gr)));
        let mut j: usize = 0;
        while j < resource.logs.len()
            invariant
                j <= resource.logs.len(),
                logs == resource@.logs,
                r == resource@,
                analysis@ == extend_analysis(
                    mid,
                    concat_map(logs.take(j as int), gi),
                    concat_map(logs.take(j as int), gr),
                ),
            decreases resource.logs.len() - j,
        {
            record_pod_log(resource, &resource.logs[j], &mut analysis);
            proof {
                lemma_concat_map_step(logs, gi, j as int);
                lemma_concat_map_step(logs, gr, j as int);
                assert(logs[j as int] == resource.logs[j as int]@);
                assert(analysis@.issues =~= mid.issues + concat_map(logs.take(j + 1), gi));
                assert(analysis@.recommendations =~= mid.recommendations + concat_map(logs.take(j + 1), gr));
            }
            j = j + 1;
        }
        assert(logs.take(j as int) =~= logs);
        analysis
    }

    fn supported_kinds(&self) -> (r: Vec<&'static str>) {
        let r = vec!["Pod"];
        assert(r@.map_values(|s: &str| s@) =~= seq!["Pod"@]);
        r
    }
}

} // verus!
