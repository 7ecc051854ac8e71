//! Health analyzer for ClusterOperator resources
use super::common::{
    cond_is, concat_map, condition_is, extend_analysis, has_issue_titled,
    has_recommendation_titled, lemma_concat_map_any, lemma_concat_map_step, reason_or_unknown,
    seq_any, some_condition, status_base_score, status_score,
};
use super::HealthAnalyzer;
use crate::resources::{str_eq, text_or, Condition, ConditionView, ResourceSnapshot, SnapshotView};
use crate::types::{
    new_analysis, new_issue, new_recommendation, HealthAnalysis, HealthAnalysisView, Issue,
    IssueCategory, IssueSeverity, IssueView, Recommendation, RecommendationView,
};
use vstd::prelude::*;

verus! {

pub struct OperatorAnalyzer;

/// The operator health score: 100, less 30/60/15 for a Warning/Error/Unknown status.
pub open spec fn operator_health_score(r: SnapshotView) -> u8 {
    status_score(r.health_status, 30, 60, 15)
}

pub open spec fn operator_not_available(c: ConditionView) -> bool {
    c.type_ == "Available"@ && c.status != "True"@
}

pub open spec fn operator_condition_issues(c: ConditionView) -> Seq<IssueView> {
    if operator_not_available(c) {
        seq![
            new_issue(
                IssueSeverity::Critical,
                IssueCategory::Availability,
                "Operator Not Available"@,
                "Operator is not available: "@ + reason_or_unknown(c),
            ),
        ]
    } else if cond_is(c, "Degraded"@, "True"@) {
        seq![
            new_issue(
                IssueSeverity::Error,
                IssueCategory::Health,
                "Operator Degraded"@,
                "Operator is in degraded state: "@ + reason_or_unknown(c),
            ),
        ]
    } else if cond_is(c, "Progressing"@, "True"@) {
        seq![
            new_issue(
                IssueSeverity::Info,
                IssueCategory::Health,
                "Operator Progressing"@,
                "Operator is currently progressing (updating or reconciling)"@,
            ),
        ]
    } else {
        seq![]
    }
}

pub open spec fn operator_condition_recommendations(c: ConditionView) -> Seq<RecommendationView> {
    if operator_not_available(c) {
        seq![
            new_recommendation(
                "Check Operator Pods"@,
                "Verify that operator pods are running and healthy"@,
            ).with_action("oc get pods -n openshift-<operator-namespace>"@),
        ]
    } else if cond_is(c, "Degraded"@, "True"@) {
        seq![
            new_recommendation(
                "Review Operator Logs"@,
                "Check operator logs for error messages"@,
            ).with_action("oc logs -n openshift-<operator-namespace> <pod-name>"@),
        ]
    } else {
        seq![]
    }
}

pub open spec fn operator_summary(score: u8) -> Seq<char> {
    if score >= 90 {
        "Operator is healthy and functioning normally"@
    } else if score >= 70 {
        "Operator has warnings that should be investigated"@
    } else {
        "Operator is degraded or unavailable"@
    }
}

/// The full analysis of a cluster operator.
pub open spec fn operator_analysis(r: SnapshotView) -> HealthAnalysisView {
    let score = operator_health_score(r);
    extend_analysis(
        new_analysis(score, operator_summary(score)),
        concat_map(r.conditions, |c: ConditionView| operator_condition_issues(c)),
        concat_map(r.conditions, |c: ConditionView| operator_condition_recommendations(c)),
    )
}

/// A condition that says the operator is degraded.
pub open spec fn says_degraded(c: ConditionView) -> bool {
    c.type_ == "Degraded"@ && c.status == "True"@
}

/// An operator's analysis holds an "Operator Degraded" issue exactly when
/// one of its conditions has type Degraded and status True; every such
/// issue is an Error, and "Review Operator Logs" is recommended exactly
/// then.
pub proof fn lemma_operator_degraded_issue(r: SnapshotView)
    ensures
        has_issue_titled(operator_analysis(r).issues, "Operator Degraded"@) <==> some_condition(
            r.conditions,
            |c: ConditionView| says_degraded(c),
        ),
        forall|k: int|
            0 <= k < operator_analysis(r).issues.len() && #[trigger] operator_analysis(
                r,
            ).issues[k].title == "Operator Degraded"@ ==> operator_analysis(r).issues[k].severity
                == IssueSeverity::Error,
        has_recommendation_titled(operator_analysis(r).recommendations, "Review Operator Logs"@)
            <==> some_condition(r.conditions, |c: ConditionView| says_degraded(c)),
{
    reveal_strlit("Operator Degraded");
    reveal_strlit("Operator Not Available");
    reveal_strlit("Operator Progressing");
    reveal_strlit("Review Operator Logs");
    reveal_strlit("Check Operator Pods");
    reveal_strlit("Degraded");
    reveal_strlit("Available");
    reveal_strlit("Progressing");
    reveal_strlit("True");
    let a = operator_analysis(r);
    let fi = |c: ConditionView| operator_condition_issues(c);
    let fr = |c: ConditionView| operator_condition_recommendations(c);
    let pi = |i: IssueView| i.title == "Operator Degraded"@;
    let pbad = |i: IssueView| i.title == "Operator Degraded"@ && i.severity != IssueSeverity::Error;
    let pr = |x: RecommendationView| x.title == "Review Operator Logs"@;
    assert(a.issues =~= concat_map(r.conditions, fi));
    assert(a.recommendations =~= concat_map(r.conditions, fr));
    lemma_concat_map_any(r.conditions, fi, pi);
    lemma_concat_map_any(r.conditions, fi, pbad);
    lemma_concat_map_any(r.conditions, fr, pr);
    assert("Operator Not Available"@.len() != "Operator Degraded"@.len());
    assert("Operator Progressing"@.len() != "Operator Degraded"@.len());
    assert("Check Operator Pods"@.len() != "Review Operator Logs"@.len());
    assert("Available"@.len() != "Degraded"@.len());
    assert forall|c: ConditionView| #[trigger] seq_any(fi(c), pi) <==> says_degraded(c) by {
        if says_degraded(c) {
            assert(!operator_not_available(c));
            assert(fi(c)[0].title == "Operator Degraded"@);
        }
        if seq_any(fi(c), pi) {
            let k = choose|k: int| 0 <= k < fi(c).len() && pi(#[trigger] fi(c)[k]);
            assert(fi(c).len() == 1);
            assert(k == 0);
        }
    }
    assert forall|c: ConditionView| !#[trigger] seq_any(fi(c), pbad) by {
        if seq_any(fi(c), pbad) {
            let k = choose|k: int| 0 <= k < fi(c).len() && pbad(#[trigger] fi(c)[k]);
            assert(fi(c).len() == 1);
            assert(k == 0);
        }
    }
    assert forall|c: ConditionView| #[trigger] seq_any(fr(c), pr) <==> says_degraded(c) by {
        if says_degraded(c) {
            assert(!operator_not_available(c));
            assert(fr(c)[0].title == "Review Operator Logs"@);
        }
        if seq_any(fr(c), pr) {
            let k = choose|k: int| 0 <= k < fr(c).len() && pr(#[trigger] fr(c)[k]);
            assert(fr(c).len() == 1);
            assert(k == 0);
        }
    }
    if has_issue_titled(a.issues, "Operator Degraded"@) {
        let k = choose|k: int| 0 <= k < a.issues.len() && #[trigger] a.issues[k].title == "Operator Degraded"@;
        assert(pi(a.issues[k]));
        let i = choose|i: int| 0 <= i < r.conditions.len() && seq_any(fi(#[trigger] r.conditions[i]), pi);
        assert(says_degraded(r.conditions[i]));
    }
    if some_condition(r.conditions, |c: ConditionView| says_degraded(c)) {
        let j = choose|j: int| 0 <= j < r.conditions.len() && says_degraded(#[trigger] r.conditions[j]);
        assert(seq_any(fi(r.conditions[j]), pi));
        assert(seq_any(fr(r.conditions[j]), pr));
        let k = choose|k: int| 0 <= k < a.issues.len() && pi(#[trigger] a.issues[k]);
        assert(a.issues[k].title == "Operator Degraded"@);
        let q = choose|q: int| 0 <= q < a.recommendations.len() && pr(#[trigger] a.recommendations[q]);
        assert(a.recommendations[q].title == "Review Operator Logs"@);
    }
    if has_recommendation_titled(a.recommendations, "Review Operator Logs"@) {
        let k = choose|k: int| 0 <= k < a.recommendations.len() && #[trigger] a.recommendations[k].title == "Review Operator Logs"@;
        assert(pr(a.recommendations[k]));
        let i = choose|i: int| 0 <= i < r.conditions.len() && seq_any(fr(#[trigger] r.conditions[i]), pr);
        assert(says_degraded(r.conditions[i]));
    }
    assert forall|k: int|
        0 <= k < a.issues.len() && #[trigger] a.issues[k].title == "Operator Degraded"@ implies a.issues[k].severity
            == IssueSeverity::Error by {
        if a.issues[k].severity != IssueSeverity::Error {
            assert(pbad(a.issues[k]));
            assert(seq_any(a.issues, pbad));
        }
    }
}

/// An operator's analysis holds an "Operator Not Available" issue exactly
/// when one of its conditions has type Available and a status other than
/// True; every such issue is Critical.
pub proof fn lemma_operator_not_available_issue(r: SnapshotView)
    ensures
        has_issue_titled(operator_analysis(r).issues, "Operator Not Available"@) <==> some_condition(
            r.conditions,
            |c: ConditionView| operator_not_available(c),
        ),
        forall|k: int|
            0 <= k < operator_analysis(r).issues.len() && #[trigger] operator_analysis(
                r,
            ).issues[k].title == "Operator Not Available"@ ==> operator_analysis(r).issues[k].severity
                == IssueSeverity::Critical,
{
    reveal_strlit("Operator Degraded");
    reveal_strlit("Operator Not Available");
    reveal_strlit("Operator Progressing");
    assert("Operator Not Available"@.len() != "Operator Degraded"@.len());
    assert("Operator Progressing"@.len() != "Operator Not Available"@.len());
    let a = operator_analysis(r);
    let fi = |c: ConditionView| operator_condition_issues(c);
    let pi = |i: IssueView| i.title == "Operator Not Available"@;
    let pbad = |i: IssueView| i.title == "Operator Not Available"@ && i.severity != IssueSeverity::Critical;
    assert(a.issues =~= concat_map(r.conditions, fi));
    lemma_concat_map_any(r.conditions, fi, pi);
    lemma_concat_map_any(r.conditions, fi, pbad);
    assert forall|c: ConditionView|
        (#[trigger] seq_any(fi(c), pi) <==> operator_not_available(c)) && !seq_any(fi(c), pbad) by {
        if operator_not_available(c) {
            assert(fi(c)[0].title == "Operator Not Available"@);
        }
        if seq_any(fi(c), pi) || seq_any(fi(c), pbad) {
            assert(fi(c).len() == 1);
        }
    }
    if has_issue_titled(a.issues, "Operator Not Available"@) {
        let k = choose|k: int| 0 <= k < a.issues.len() && #[trigger] a.issues[k].title == "Operator Not Available"@;
        assert(pi(a.issues[k]));
        let i = choose|i: int| 0 <= i < r.conditions.len() && seq_any(fi(#[trigger] r.conditions[i]), pi);
        assert(operator_not_available(r.conditions[i]));
    }
    if some_condition(r.conditions, |c: ConditionView| operator_not_available(c)) {
        let j = choose|j: int| 0 <= j < r.conditions.len() && operator_not_available(#[trigger] r.conditions[j]);
        assert(seq_any(fi(r.conditions[j]), pi));
        let k = choose|k: int| 0 <= k < a.issues.len() && pi(#[trigger] a.issues[k]);
        assert(a.issues[k].title == "Operator Not Available"@);
    }
    assert forall|k: int|
        0 <= k < a.issues.len() && #[trigger] a.issues[k].title == "Operator Not Available"@ implies a.issues[k].severity
            == IssueSeverity::Critical by {
        if a.issues[k].severity != IssueSeverity::Critical {
            assert(pbad(a.issues[k]));
            assert(seq_any(a.issues, pbad));
        }
    }
}

fn record_operator_condition(c: &Condition, analysis: &mut HealthAnalysis)
    ensures
        final(analysis)@ == extend_analysis(
            old(analysis)@,
            operator_condition_issues(c@),
            operator_condition_recommendations(c@),
        ),
{
    let ghost start = analysis@;
    if str_eq(c.type_.as_str(), "Available") && !str_eq(c.status.as_str(), "True") {
        let mut description = String::from_str("Operator is not available: ");
        description.append(text_or(&c.reason, "Unknown"));
        analysis.add_issue(
            Issue::new(
                IssueSeverity::Critical,
                IssueCategory::Availability,
                "Operator Not Available",
                description.as_str(),
            ),
        );
        analysis.add_recommendation(
            Recommendation::new(
                "Check Operator Pods",
                "Verify that operator pods are running and healthy",
            ).with_action("oc get pods -n openshift-<operator-namespace>"),
        );
    } else if condition_is(c, "Degraded", "True") {
        let mut description = String::from_str("Operator is in degraded state: ");
        description.append(text_or(&c.reason, "Unknown"));
        analysis.add_issue(
            Issue::new(
                IssueSeverity::Error,
                IssueCategory::Health,
                "Operator Degraded",
                description.as_str(),
            ),
        );
        analysis.add_recommendation(
            Recommendation::new(
                "Review Operator Logs",
                "Check operator logs for error messages",
            ).with_action("oc logs -n openshift-<operator-namespace> <pod-name>"),
        );
    } else if condition_is(c, "Progressing", "True") {
        analysis.add_issue(
            Issue::new(
                IssueSeverity::Info,
                IssueCategory::Health,
                "Operator Progressing",
                "Operator is currently progressing (updating or reconciling)",
            ),
        );
    }
    assert(analysis@.issues =~= start.issues + operator_condition_issues(c@));
    assert(analysis@.recommendations =~= start.recommendations + operator_condition_recommendations(c@));
}

impl OperatorAnalyzer {
    pub fn new() -> (r: OperatorAnalyzer) {
        OperatorAnalyzer
    }

    fn calculate_health_score(&self, resource: &ResourceSnapshot) -> (r: u8)
        ensures
            r == operator_health_score(resource@),
    {
        status_base_score(resource.health_status, 30, 60, 15)
    }
}

impl HealthAnalyzer for OperatorAnalyzer {
    open spec fn analysis_of(&self, resource: SnapshotView) -> HealthAnalysisView {
        operator_analysis(resource)
    }

    open spec fn kinds(&self) -> Seq<Seq<char>> {
        seq!["ClusterOperator"@]
    }

    fn analyze(&self, resource: &ResourceSnapshot) -> (r: HealthAnalysis) {
        let health_score = self.calculate_health_score(resource);
        let summary = if health_score >= 90 {
            "Operator is healthy and functioning normally"
        } else if health_score >= 70 {
            "Operator has warnings that should be investigated"
        } else {
            "Operator is degraded or unavailable"
        };
        let mut analysis = HealthAnalysis::new(health_score, summary);
        let ghost start = analysis@;
        let ghost conds = resource@.conditions;
        let ghost fi = |c: ConditionView| operator_condition_issues(c);
        let ghost fr = |c: ConditionView| operator_condition_recommendations(c);
        assert(analysis@ =~= extend_analysis(start, concat_map(conds.take(0), fi), concat_map(conds.take(0), fr)));
        let mut i: usize = 0;
        while i < resource.conditions.len()
            invariant
                i <= resource.conditions.len(),
                conds == resource@.conditions,
                analysis@ == extend_analysis(
                    start,
                    concat_map(conds.take(i as int), fi),
                    concat_map(conds.take(i as int), fr),
                ),
            decreases resource.conditions.len() - i,
        {
            record_operator_condition(&resource.conditions[i], &mut analysis);
            proof {
                lemma_concat_map_step(conds, fi, i as int);
                lemma_concat_map_step(conds, fr, i as int);
                assert(conds[i as int] == resource.conditions[i as int]@);
                assert(analysis@.issues =~= start.issues + concat_map(conds.take(i + 1), fi));
                assert(analysis@.recommendations =~= start.recommendations + concat_map(conds.take(i + 1), fr));
            }
            i = i + 1;
        }
        assert(conds.take(i as int) =~= conds);
        analysis
    }

    fn supported_kinds(&self) -> (r: Vec<&'static str>) {
        let r = vec!["ClusterOperator"];
        assert(r@.map_values(|s: &str| s@) =~= seq!["ClusterOperator"@]);
        r
    }
}

} // verus!
