//! Health analyzer for Workload resources (Deployments, StatefulSets,
//! DaemonSets, Jobs, CronJobs, ReplicaSets)
use super::common::{
    cond_is, concat_map, condition_is, deduct, extend_analysis, lemma_concat_map_step,
    namespace_or_default, ns_or_default, sat_sub, status_base_score, status_score,
};
use super::HealthAnalyzer;
use crate::resources::{
    field_bool, field_i64, get_field_bool, get_field_i64, or_text, str_eq, text_or, Condition,
    ConditionView, ResourceSnapshot, SnapshotView,
};
use crate::text::{decimal, i64_to_text};
use crate::types::{
    new_analysis, new_issue, new_recommendation, HealthAnalysis, HealthAnalysisView, Issue,
    IssueCategory, IssueSeverity, IssueView, Recommendation, RecommendationView,
};
use vstd::prelude::*;

verus! {

pub struct WorkloadAnalyzer;

/// Integer division rounding toward zero, as Rust's `/` on integers does.
pub open spec fn trunc_div(a: int, b: int) -> int {
    if a >= 0 {
        a / b
    } else {
        -((-a) / b)
    }
}

/// Score after the readiness check: with positive `replicas` and a
/// `ready_replicas` field, 30 off below 50% ready and 10 off below 100%.
pub open spec fn readiness_score(base: u8, r: SnapshotView) -> u8 {
    match (field_i64(r.key_fields, "replicas"@), field_i64(r.key_fields, "ready_replicas"@)) {
        (Some(replicas), Some(ready)) => if replicas > 0 {
            let pct = trunc_div(ready * 100, replicas as int);
            if pct < 50 {
                sat_sub(base, 30)
            } else if pct < 100 {
                sat_sub(base, 10)
            } else {
                base
            }
        } else {
            base
        },
        _ => base,
    }
}

/// The workload health score: 100, less 20/50/10 for a Warning/Error/Unknown
/// status, less the readiness deduction, less 40 for failed pods.
pub open spec fn workload_health_score(r: SnapshotView) -> u8 {
    let s = readiness_score(status_score(r.health_status, 20, 50, 10), r);
    match field_i64(r.key_fields, "failed"@) {
        Some(failed) => if failed > 0 {
            sat_sub(s, 40)
        } else {
            s
        },
        None => s,
    }
}

/// `"Only {part}/{whole}{tail}"`.
pub open spec fn only_of(part: i64, whole: i64, tail: Seq<char>) -> Seq<char> {
    "Only "@ + decimal(part as int) + "/"@ + decimal(whole as int) + tail
}

/// `"oc get pods -l app={name} -n {namespace}"`.
pub open spec fn pods_by_app_command(r: SnapshotView) -> Seq<char> {
    "oc get pods -l app="@ + r.name + " -n "@ + ns_or_default(r)
}

pub open spec fn deployment_issues(r: SnapshotView) -> Seq<IssueView> {
    let kf = r.key_fields;
    let first = match (field_i64(kf, "replicas"@), field_i64(kf, "available_replicas"@)) {
        (Some(replicas), Some(available)) => if available < replicas {
            seq![
                new_issue(
                    IssueSeverity::Error,
                    IssueCategory::Availability,
                    "Deployment Not Fully Available"@,
                    only_of(available, replicas, " replicas are available"@),
                ),
            ]
        } else {
            seq![]
        },
        _ => seq![],
    };
    let second = match field_i64(kf, "unavailable_replicas"@) {
        Some(unavailable) => if unavailable > 0 {
            seq![
                new_issue(
                    IssueSeverity::Error,
                    IssueCategory::Availability,
                    "Unavailable Replicas"@,
                    decimal(unavailable as int) + " replicas are unavailable"@,
                ),
            ]
        } else {
            seq![]
        },
        None => seq![],
    };
    first + second
}

pub open spec fn deployment_recommendations(r: SnapshotView) -> Seq<RecommendationView> {
    match (field_i64(r.key_fields, "replicas"@), field_i64(r.key_fields, "available_replicas"@)) {
        (Some(replicas), Some(available)) => if available < replicas {
            seq![
                new_recommendation(
                    "Check Pod Status"@,
                    "Investigate why pods are not becoming available"@,
                ).with_action(pods_by_app_command(r)),
            ]
        } else {
            seq![]
        },
        _ => seq![],
    }
}

pub open spec fn statefulset_issues(r: SnapshotView) -> Seq<IssueView> {
    let kf = r.key_fields;
    let first = match (field_i64(kf, "replicas"@), field_i64(kf, "ready_replicas"@)) {
        (Some(replicas), Some(ready)) => if ready < replicas {
            seq![
                new_issue(
                    IssueSeverity::Error,
                    IssueCategory::Availability,
                    "StatefulSet Not Fully Ready"@,
                    only_of(ready, replicas, " replicas are ready"@),
                ),
            ]
        } else {
            seq![]
        },
        _ => seq![],
    };
    let second = match (field_i64(kf, "replicas"@), field_i64(kf, "updated_replicas"@)) {
        (Some(replicas), Some(updated)) => if updated < replicas {
            seq![
                new_issue(
                    IssueSeverity::Warning,
                    IssueCategory::Configuration,
                    "StatefulSet Update In Progress"@,
                    only_of(updated, replicas, " replicas are updated"@),
                ),
            ]
        } else {
            seq![]
        },
        _ => seq![],
    };
    first + second
}

pub open spec fn statefulset_recommendations(r: SnapshotView) -> Seq<RecommendationView> {
    match (field_i64(r.key_fields, "replicas"@), field_i64(r.key_fields, "ready_replicas"@)) {
        (Some(replicas), Some(ready)) => if ready < replicas {
            seq![
                new_recommendation(
                    "Check StatefulSet Pods"@,
                    "StatefulSets require sequential pod startup. Check if pods are stuck"@,
                ).with_action(pods_by_app_command(r) + " -o wide"@),
            ]
        } else {
            seq![]
        },
        _ => seq![],
    }
}

pub open spec fn daemonset_issues(r: SnapshotView) -> Seq<IssueView> {
    let kf = r.key_fields;
    let first = match (
        field_i64(kf, "desired_number_scheduled"@),
        field_i64(kf, "number_ready"@),
    ) {
        (Some(desired), Some(ready)) => if ready < desired {
            seq![
                new_issue(
                    IssueSeverity::Error,
                    IssueCategory::Availability,
                    "DaemonSet Not Fully Ready"@,
                    only_of(ready, desired, " pods are ready"@),
                ),
            ]
        } else {
            seq![]
        },
        _ => seq![],
    };
    let second = match field_i64(kf, "number_unavailable"@) {
        Some(n) => if n > 0 {
            seq![
                new_issue(
                    IssueSeverity::Error,
                    IssueCategory::Availability,
                    "Unavailable DaemonSet Pods"@,
                    decimal(n as int) + " pods are unavailable"@,
                ),
            ]
        } else {
            seq![]
        },
        None => seq![],
    };
    let third = match field_i64(kf, "number_misscheduled"@) {
        Some(n) => if n > 0 {
            seq![
                new_issue(
                    IssueSeverity::Warning,
                    IssueCategory::Configuration,
                    "Misscheduled DaemonSet Pods"@,
                    decimal(n as int) + " pods are running on nodes where they shouldn't"@,
                ),
            ]
        } else {
            seq![]
        },
        None => seq![],
    };
    first + second + third
}

pub open spec fn daemonset_recommendations(r: SnapshotView) -> Seq<RecommendationView> {
    match (
        field_i64(r.key_fields, "desired_number_scheduled"@),
        field_i64(r.key_fields, "number_ready"@),
    ) {
        (Some(desired), Some(ready)) => if ready < desired {
            seq![
                new_recommendation(
                    "Check DaemonSet Pods"@,
                    "DaemonSets should run on all matching nodes. Check node selectors and taints"@,
                ).with_action(pods_by_app_command(r) + " -o wide"@),
            ]
        } else {
            seq![]
        },
        _ => seq![],
    }
}

/// The issue a failed `Failed` condition of a job raises.
pub open spec fn job_condition_issues(c: ConditionView) -> Seq<IssueView> {
    if cond_is(c, "Failed"@, "True"@) {
        seq![
            new_issue(
                IssueSeverity::Critical,
                IssueCategory::Availability,
                "Job Failed"@,
                or_text(c.message, "Job has failed"@),
            ),
        ]
    } else {
        seq![]
    }
}

pub open spec fn job_failed_pods(r: SnapshotView) -> bool {
    match field_i64(r.key_fields, "failed"@) {
        Some(failed) => failed > 0,
        None => false,
    }
}

pub open spec fn job_failed_pods_issues(r: SnapshotView) -> Seq<IssueView> {
    if job_failed_pods(r) {
        seq![
            new_issue(
                IssueSeverity::Error,
                IssueCategory::Availability,
                "Job Has Failed Pods"@,
                decimal(field_i64(r.key_fields, "failed"@).unwrap() as int) + " pods have failed"@,
            ),
        ]
    } else {
        seq![]
    }
}

pub open spec fn job_issues(r: SnapshotView) -> Seq<IssueView> {
    job_failed_pods_issues(r) + concat_map(r.conditions, |c: ConditionView| job_condition_issues(c))
}

pub open spec fn job_recommendations(r: SnapshotView) -> Seq<RecommendationView> {
    if job_failed_pods(r) {
        seq![
            new_recommendation(
                "Check Job Logs"@,
                "Review logs of failed pods to identify the issue"@,
            ).with_action("oc logs job/"@ + r.name + " -n "@ + ns_or_default(r)),
        ]
    } else {
        seq![]
    }
}

pub open spec fn cronjob_suspended(r: SnapshotView) -> bool {
    field_bool(r.key_fields, "suspend"@) == Some(true)
}

pub open spec fn cronjob_issues(r: SnapshotView) -> Seq<IssueView> {
    if cronjob_suspended(r) {
        seq![
            new_issue(
                IssueSeverity::Warning,
                IssueCategory::Configuration,
                "CronJob Suspended"@,
                "CronJob is currently suspended and will not create new jobs"@,
            ),
        ]
    } else {
        seq![]
    }
}

pub open spec fn cronjob_recommendations(r: SnapshotView) -> Seq<RecommendationView> {
    if cronjob_suspended(r) {
        seq![
            new_recommendation(
                "Resume CronJob"@,
                "If the suspension was unintentional, resume the CronJob"@,
            ).with_action(
                "oc patch cronjob "@ + r.name + " -n "@ + ns_or_default(r)
                    + " -p '{\"spec\":{\"suspend\":false}}'"@,
            ),
        ]
    } else {
        seq![]
    }
}

pub open spec fn replicaset_issues(r: SnapshotView) -> Seq<IssueView> {
    match (field_i64(r.key_fields, "replicas"@), field_i64(r.key_fields, "ready_replicas"@)) {
        (Some(replicas), Some(ready)) => if replicas > 0 && ready < replicas {
            seq![
                new_issue(
                    IssueSeverity::Error,
                    IssueCategory::Availability,
                    "ReplicaSet Not Fully Ready"@,
                    only_of(ready, replicas, " replicas are ready"@),
                ),
            ]
        } else {
            seq![]
        },
        _ => seq![],
    }
}

/// The issues of the kind-specific checks.
pub open spec fn workload_issues(r: SnapshotView) -> Seq<IssueView> {
    if r.kind == "Deployment"@ {
        deployment_issues(r)
    } else if r.kind == "StatefulSet"@ {
        statefulset_issues(r)
    } else if r.kind == "DaemonSet"@ {
        daemonset_issues(r)
    } else if r.kind == "Job"@ {
        job_issues(r)
    } else if r.kind == "CronJob"@ {
        cronjob_issues(r)
    } else if r.kind == "ReplicaSet"@ {
        replicaset_issues(r)
    } else {
        seq![]
    }
}

/// The recommendations of the kind-specific checks.
pub open spec fn workload_recommendations(r: SnapshotView) -> Seq<RecommendationView> {
    if r.kind == "Deployment"@ {
        deployment_recommendations(r)
    } else if r.kind == "StatefulSet"@ {
        statefulset_recommendations(r)
    } else if r.kind == "DaemonSet"@ {
        daemonset_recommendations(r)
    } else if r.kind == "Job"@ {
        job_recommendations(r)
    } else if r.kind == "CronJob"@ {
        cronjob_recommendations(r)
    } else {
        seq![]
    }
}

pub open spec fn workload_summary(r: SnapshotView) -> Seq<char> {
    let label = if r.kind == "Deployment"@ {
        "Deployment "@
    } else if r.kind == "StatefulSet"@ {
        "StatefulSet "@
    } else if r.kind == "DaemonSet"@ {
        "DaemonSet "@
    } else if r.kind == "Job"@ {
        "Job "@
    } else if r.kind == "CronJob"@ {
        "CronJob "@
    } else if r.kind == "ReplicaSet"@ {
        "ReplicaSet "@
    } else {
        "Workload "@
    };
    label + r.name + " health analysis"@
}

/// `"oc get events -n {namespace} --field-selector involvedObject.name={name}"`.
pub open spec fn events_command(r: SnapshotView) -> Seq<char> {
    "oc get events -n "@ + ns_or_default(r) + " --field-selector involvedObject.name="@ + r.name
}

/// The full analysis of a workload: the kind-specific findings, then a
/// pointer to the events when there is any issue.
pub open spec fn workload_analysis(r: SnapshotView) -> HealthAnalysisView {
    let issues = workload_issues(r);
    let recs = workload_recommendations(r);
    let general = if issues.len() > 0 {
        seq![
            new_recommendation(
                "Review Events"@,
                "Check cluster events for additional context"@,
            ).with_action(events_command(r)),
        ]
    } else {
        seq![]
    };
    extend_analysis(
        new_analysis(workload_health_score(r), workload_summary(r)),
        issues,
        recs + general,
    )
}

fn only_of_text(part: i64, whole: i64, tail: &str) -> (r: String)
    ensures
        r@ == only_of(part, whole, tail@),
{
    let mut s = String::from_str("Only ");
    let p = i64_to_text(part);
    let w = i64_to_text(whole);
    s.append(p.as_str());
    s.append("/");
    s.append(w.as_str());
    s.append(tail);
    s
}

fn pods_by_app_text(resource: &ResourceSnapshot) -> (r: String)
    ensures
        r@ == pods_by_app_command(resource@),
{
    let mut s = String::from_str("oc get pods -l app=");
    s.append(resource.name.as_str());
    s.append(" -n ");
    s.append(namespace_or_default(resource));
    s
}

fn count_text(n: i64, tail: &str) -> (r: String)
    ensures
        r@ == decimal(n as int) + tail@,
{
    let mut s = i64_to_text(n);
    s.append(tail);
    s
}

/// The percentage ready, rounded toward zero, for positive `replicas`.
fn ready_percent(ready: i64, replicas: i64) -> (r: i128)
    requires
        replicas > 0,
    ensures
        r == trunc_div(ready * 100, replicas as int),
{
    let prod: i128 = (ready as i128) * 100;
    let div: i128 = replicas as i128;
    if prod >= 0 {
        prod / div
    } else {
        -((-prod) / div)
    }
}

impl WorkloadAnalyzer {
    pub fn new() -> (r: WorkloadAnalyzer) {
        WorkloadAnalyzer
    }

    fn calculate_health_score(&self, resource: &ResourceSnapshot) -> (r: u8)
        ensures
            r == workload_health_score(resource@),
    {
        let mut score = status_base_score(resource.health_status, 20, 50, 10);
        let kf = &resource.key_fields;
        match (get_field_i64(kf, "replicas"), get_field_i64(kf, "ready_replicas")) {
            (Some(replicas), Some(ready)) => {
                if replicas > 0 {
                    let pct = ready_percent(ready, replicas);
                    if pct < 50 {
                        score = deduct(score, 30);
                    } else if pct < 100 {
                        score = deduct(score, 10);
                    }
                }
            },
            _ => {},
        }
        match get_field_i64(kf, "failed") {
            Some(failed) => {
                if failed > 0 {
                    score = deduct(score, 40);
                }
            },
            None => {},
        }
        score
    }

    fn analyze_deployment(&self, resource: &ResourceSnapshot, analysis: &mut HealthAnalysis)
        ensures
            final(analysis)@ == extend_analysis(
                old(analysis)@,
                deployment_issues(resource@),
                deployment_recommendations(resource@),
            ),
    {
        let ghost start = analysis@;
        let kf = &resource.key_fields;
        match (get_field_i64(kf, "replicas"), get_field_i64(kf, "available_replicas")) {
            (Some(replicas), Some(available)) => {
                if available < replicas {
                    let d = only_of_text(available, replicas, " replicas are available");
                    analysis.add_issue(
                        Issue::new(
                            IssueSeverity::Error,
                            IssueCategory::Availability,
                            "Deployment Not Fully Available",
                            d.as_str(),
                        ),
                    );
                    let a = pods_by_app_text(resource);
                    analysis.add_recommendation(
                        Recommendation::new(
                            "Check Pod Status",
                            "Investigate why pods are not becoming available",
                        ).with_action(a.as_str()),
                    );
                }
            },
            _ => {},
        }
        match get_field_i64(kf, "unavailable_replicas") {
            Some(unavailable) => {
                if unavailable > 0 {
                    let d = count_text(unavailable, " replicas are unavailable");
                    analysis.add_issue(
                        Issue::new(
                            IssueSeverity::Error,
                            IssueCategory::Availability,
                            "Unavailable Replicas",
                            d.as_str(),
                        ),
                    );
                }
            },
            None => {},
        }
        assert(analysis@.issues =~= start.issues + deployment_issues(resource@));
        assert(analysis@.recommendations =~= start.recommendations + deployment_recommendations(resource@));
    }

    fn analyze_statefulset(&self, resource: &ResourceSnapshot, analysis: &mut HealthAnalysis)
        ensures
            final(analysis)@ == extend_analysis(
                old(analysis)@,
                statefulset_issues(resource@),
                statefulset_recommendations(resource@),
            ),
    {
        let ghost start = analysis@;
        let kf = &resource.key_fields;
        match (get_field_i64(kf, "replicas"), get_field_i64(kf, "ready_replicas")) {
            (Some(replicas), Some(ready)) => {
                if ready < replicas {
                    let d = only_of_text(ready, replicas, " replicas are ready");
                    analysis.add_issue(
                        Issue::new(
                            IssueSeverity::Error,
                            IssueCategory::Availability,
                            "StatefulSet Not Fully Ready",
                            d.as_str(),
                        ),
                    );
                    let mut a = pods_by_app_text(resource);
                    a.append(" -o wide");
                    analysis.add_recommendation(
                        Recommendation::new(
                            "Check StatefulSet Pods",
                            "StatefulSets require sequential pod startup. Check if pods are stuck",
                        ).with_action(a.as_str()),
                    );
                }
            },
            _ => {},
        }
        match (get_field_i64(kf, "replicas"), get_field_i64(kf, "updated_replicas")) {
            (Some(replicas), Some(updated)) => {
                if updated < replicas {
                    let d = only_of_text(updated, replicas, " replicas are updated");
                    analysis.add_issue(
                        Issue::new(
                            IssueSeverity::Warning,
                            IssueCategory::Configuration,
                            "StatefulSet Update In Progress",
                            d.as_str(),
                        ),
                    );
                }
            },
            _ => {},
        }
        assert(analysis@.issues =~= start.issues + statefulset_issues(resource@));
        assert(analysis@.recommendations =~= start.recommendations + statefulset_recommendations(resource@));
    }

    fn analyze_daemonset(&self, resource: &ResourceSnapshot, analysis: &mut HealthAnalysis)
        ensures
            final(analysis)@ == extend_analysis(
                old(analysis)@,
                daemonset_issues(resource@),
                daemonset_recommendations(resource@),
            ),
    {
        let ghost start = analysis@;
        let kf = &resource.key_fields;
        match (get_field_i64(kf, "desired_number_scheduled"), get_field_i64(kf, "number_ready")) {
            (Some(desired), Some(ready)) => {
                if ready < desired {
                    let d = only_of_text(ready, desired, " pods are ready");
                    analysis.add_issue(
                        Issue::new(
                            IssueSeverity::Error,
                            IssueCategory::Availability,
                            "DaemonSet Not Fully Ready",
                            d.as_str(),
                        ),
                    );
                    let mut a = pods_by_app_text(resource);
                    a.append(" -o wide");
                    analysis.add_recommendation(
                        Recommendation::new(
                            "Check DaemonSet Pods",
                            "DaemonSets should run on all matching nodes. Check node selectors and taints",
                        ).with_action(a.as_str()),
                    );
                }
            },
            _ => {},
        }
        match get_field_i64(kf, "number_unavailable") {
            Some(n) => {
                if n > 0 {
                    let d = count_text(n, " pods are unavailable");
                    analysis.add_issue(
                        Issue::new(
                            IssueSeverity::Error,
                            IssueCategory::Availability,
                            "Unavailable DaemonSet Pods",
                            d.as_str(),
                        ),
                    );
                }
            },
            None => {},
        }
        match get_field_i64(kf, "number_misscheduled") {
            Some(n) => {
                if n > 0 {
                    let d = count_text(n, " pods are running on nodes where they shouldn't");
                    analysis.add_issue(
                        Issue::new(
                            IssueSeverity::Warning,
                            IssueCategory::Configuration,
                            "Misscheduled DaemonSet Pods",
                            d.as_str(),
                        ),
                    );
                }
            },
            None => {},
        }
        assert(analysis@.issues =~= start.issues + daemonset_issues(resource@));
        assert(analysis@.recommendations =~= start.recommendations + daemonset_recommendations(resource@));
    }

    fn analyze_job(&self, resource: &ResourceSnapshot, analysis: &mut HealthAnalysis)
        ensures
            final(analysis)@ == extend_analysis(
                old(analysis)@,
                job_issues(resource@),
                job_recommendations(resource@),
            ),
    {
        let ghost start = analysis@;
        let kf = &resource.key_fields;
        match get_field_i64(kf, "failed") {
            Some(failed) => {
                if failed > 0 {
                    let d = count_text(failed, " pods have failed");
                    analysis.add_issue(
                        Issue::new(
                            IssueSeverity::Error,
                            IssueCategory::Availability,
                            "Job Has Failed Pods",
                            d.as_str(),
                        ),
                    );
                    let mut a = String::from_str("oc logs job/");
                    a.append(resource.name.as_str());
                    a.append(" -n ");
                    a.append(namespace_or_default(resource));
                    analysis.add_recommendation(
                        Recommendation::new(
                            "Check Job Logs",
                            "Review logs of failed pods to identify the issue",
                        ).with_action(a.as_str()),
                    );
                }
            },
            None => {},
        }
        let ghost mid = analysis@;
        let ghost conds = resource@.conditions;
        let ghost fi = |c: ConditionView| job_condition_issues(c);
        assert(mid.issues =~= start.issues + job_failed_pods_issues(resource@));
        assert(analysis@.issues =~= mid.issues + concat_map(conds.take(0), fi));
        let mut i: usize = 0;
        while i < resource.conditions.len()
            invariant
                i <= resource.conditions.len(),
                conds == resource@.conditions,
                analysis@.issues == mid.issues + concat_map(conds.take(i as int), fi),
                analysis@.recommendations == mid.recommendations,
                analysis@.health_score == mid.health_score,
                analysis@.summary == mid.summary,
            decreases resource.conditions.len() - i,
        {
            let c = &resource.conditions[i];
            proof {
                lemma_concat_map_step(conds, fi, i as int);
                assert(conds[i as int] == c@);
            }
            if condition_is(c, "Failed", "True") {
                let d = String::from_str(text_or(&c.message, "Job has failed"));
                analysis.add_issue(
                    Issue::new(
                        IssueSeverity::Critical,
                        IssueCategory::Availability,
                        "Job Failed",
                        d.as_str(),
                    ),
                );
            }
            assert(analysis@.issues =~= mid.issues + concat_map(conds.take(i + 1), fi));
            i = i + 1;
        }
        assert(conds.take(i as int) =~= conds);
        assert(analysis@.issues =~= start.issues + job_issues(resource@));
        assert(analysis@.recommendations =~= start.recommendations + job_recommendations(resource@));
    }

    fn analyze_cronjob(&self, resource: &ResourceSnapshot, analysis: &mut HealthAnalysis)
        ensures
            final(analysis)@ == extend_analysis(
                old(analysis)@,
                cronjob_issues(resource@),
                cronjob_recommendations(resource@),
            ),
    {
        let ghost start = analysis@;
        match get_field_bool(&resource.key_fields, "suspend") {
            Some(suspend) => {
                if suspend {
                    analysis.add_issue(
                        Issue::new(
                            IssueSeverity::Warning,
                            IssueCategory::Configuration,
                            "CronJob Suspended",
                            "CronJob is currently suspended and will not create new jobs",
                        ),
                    );
                    let mut a = String::from_str("oc patch cronjob ");
                    a.append(resource.name.as_str());
                    a.append(" -n ");
                    a.append(namespace_or_default(resource));
                    a.append(" -p '{\"spec\":{\"suspend\":false}}'");
                    analysis.add_recommendation(
                        Recommendation::new(
                            "Resume CronJob",
                            "If the suspension was unintentional, resume the CronJob",
                        ).with_action(a.as_str()),
                    );
                }
            },
            None => {},
        }
        assert(analysis@.issues =~= start.issues + cronjob_issues(resource@));
        assert(analysis@.recommendations =~= start.recommendations + cronjob_recommendations(resource@));
    }

    fn analyze_replicaset(&self, resource: &ResourceSnapshot, analysis: &mut HealthAnalysis)
        ensures
            final(analysis)@ == extend_analysis(
                old(analysis)@,
                replicaset_issues(resource@),
                Seq::empty(),
            ),
    {
        let ghost start = analysis@;
        let kf = &resource.key_fields;
        match (get_field_i64(kf, "replicas"), get_field_i64(kf, "ready_replicas")) {
            (Some(replicas), Some(ready)) => {
                if replicas > 0 && ready < replicas {
                    let d = only_of_text(ready, replicas, " replicas are ready");
                    analysis.add_issue(
                        Issue::new(
                            IssueSeverity::Error,
                            IssueCategory::Availability,
                            "ReplicaSet Not Fully Ready",
                            d.as_str(),
                        ),
                    );
                }
            },
            _ => {},
        }
        assert(analysis@.issues =~= start.issues + replicaset_issues(resource@));
        assert(analysis@.recommendations =~= start.recommendations + Seq::<RecommendationView>::empty());
    }
}

impl HealthAnalyzer for WorkloadAnalyzer {
    open spec fn analysis_of(&self, resource: SnapshotView) -> HealthAnalysisView {
        workload_analysis(resource)
    }

    open spec fn kinds(&self) -> Seq<Seq<char>> {
        seq![
            "Deployment"@,
            "StatefulSet"@,
            "DaemonSet"@,
            "Job"@,
            "CronJob"@,
            "ReplicaSet"@,
        ]
    }

    fn analyze(&self, resource: &ResourceSnapshot) -> (r: HealthAnalysis) {
        let health_score = self.calculate_health_score(resource);
        let kind = resource.kind.as_str();
        let label = if str_eq(kind, "Deployment") {
            "Deployment "
        } else if str_eq(kind, "StatefulSet") {
            "StatefulSet "
        } else if str_eq(kind, "DaemonSet") {
            "DaemonSet "
        } else if str_eq(kind, "Job") {
            "Job "
        } else if str_eq(kind, "CronJob") {
            "CronJob "
        } else if str_eq(kind, "ReplicaSet") {
            "ReplicaSet "
        } else {
            "Workload "
        };
        let mut summary = String::from_str(label);
        summary.append(resource.name.as_str());
        summary.append(" health analysis");
        let mut analysis = HealthAnalysis::new(health_score, summary.as_str());
        let ghost start = analysis@;
        if str_eq(kind, "Deployment") {
            self.analyze_deployment(resource, &mut analysis);
        } else if str_eq(kind, "StatefulSet") {
            self.analyze_statefulset(resource, &mut analysis);
        } else if str_eq(kind, "DaemonSet") {
            self.analyze_daemonset(resource, &mut analysis);
        } else if str_eq(kind, "Job") {
            self.analyze_job(resource, &mut analysis);
        } else if str_eq(kind, "CronJob") {
            self.analyze_cronjob(resource, &mut analysis);
        } else if str_eq(kind, "ReplicaSet") {
            self.analyze_replicaset(resource, &mut analysis);
        }
        assert(analysis@.issues =~= start.issues + workload_issues(resource@));
        assert(analysis@.recommendations =~= start.recommendations + workload_recommendations(resource@));
        if analysis.issues.len() > 0 {
            let mut a = String::from_str("oc get events -n ");
            a.append(namespace_or_default(resource));
            a.append(" --field-selector involvedObject.name=");
            a.append(resource.name.as_str());
            analysis.add_recommendation(
                Recommendation::new(
                    "Review Events",
                    "Check cluster events for additional context",
                ).with_action(a.as_str()),
            );
        }
        assert(analysis@.recommendations =~= start.recommendations + (workload_recommendations(resource@) + (if workload_issues(resource@).len() > 0 {
            seq![
                new_recommendation(
                    "Review Events"@,
                    "Check cluster events for additional context"@,
                ).with_action(events_command(resource@)),
            ]
        } else {
            seq![]
        })));
        analysis
    }

    fn supported_kinds(&self) -> (r: Vec<&'static str>) {
        let r = vec!["Deployment", "StatefulSet", "DaemonSet", "Job", "CronJob", "ReplicaSet"];
        assert(r@.map_values(|s: &str| s@) =~= seq![
            "Deployment"@,
            "StatefulSet"@,
            "DaemonSet"@,
            "Job"@,
            "CronJob"@,
            "ReplicaSet"@,
        ]);
        r
    }
}

} // verus!
