//! Health analyzer for Machine resources
use super::common::{
    concat_map, extend_analysis, lemma_concat_map_step, reason_or_unknown, status_base_score,
    status_score,
};
use super::HealthAnalyzer;
use crate::resources::{str_eq, text_or, Condition, ConditionView, ResourceSnapshot, SnapshotView};
use crate::types::{
    new_analysis, new_issue, new_recommendation, HealthAnalysis, HealthAnalysisView, Issue,
    IssueCategory, IssueSeverity, IssueView, Recommendation, RecommendationView,
};
use vstd::prelude::*;

verus! {

pub struct MachineAnalyzer;

/// The machine health score: 100, less 25/55/10 for a Warning/Error/Unknown status.
pub open spec fn machine_health_score(r: SnapshotView) -> u8 {
    status_score(r.health_status, 25, 55, 10)
}

/// A `Ready` condition whose status is not `True`.
pub open spec fn machine_not_ready(c: ConditionView) -> bool {
    c.type_ == "Ready"@ && c.status != "True"@
}

pub open spec fn machine_condition_issues(c: ConditionView) -> Seq<IssueView> {
    if machine_not_ready(c) {
        seq![
            new_issue(
                IssueSeverity::Error,
                IssueCategory::Availability,
                "Machine Not Ready"@,
                "Machine is not ready: "@ + reason_or_unknown(c),
            ),
        ]
    } else {
        seq![]
    }
}

pub open spec fn machine_condition_recommendations(c: ConditionView) -> Seq<RecommendationView> {
    if machine_not_ready(c) {
        seq![
            new_recommendation(
                "Check Machine Status"@,
                "Investigate machine provisioning and node association"@,
            ).with_action("oc describe machine <machine-name> -n openshift-machine-api"@),
        ]
    } else {
        seq![]
    }
}

pub open spec fn machine_summary(score: u8) -> Seq<char> {
    if score >= 90 {
        "Machine is healthy and provisioned correctly"@
    } else if score >= 70 {
        "Machine has minor issues"@
    } else {
        "Machine has significant provisioning or health issues"@
    }
}

/// The full analysis of a machine.
pub open spec fn machine_analysis(r: SnapshotView) -> HealthAnalysisView {
    let score = machine_health_score(r);
    extend_analysis(
        new_analysis(score, machine_summary(score)),
        concat_map(r.conditions, |c: ConditionView| machine_condition_issues(c)),
        concat_map(r.conditions, |c: ConditionView| machine_condition_recommendations(c)),
    )
}

fn record_machine_condition(c: &Condition, analysis: &mut HealthAnalysis)
    ensures
        final(analysis)@ == extend_analysis(
            old(analysis)@,
            machine_condition_issues(c@),
            machine_condition_recommendations(c@),
        ),
{
    let ghost start = analysis@;
    if str_eq(c.type_.as_str(), "Ready") && !str_eq(c.status.as_str(), "True") {
        let mut description = String::from_str("Machine is not ready: ");
        description.append(text_or(&c.reason, "Unknown"));
        analysis.add_issue(
            Issue::new(
                IssueSeverity::Error,
                IssueCategory::Availability,
                "Machine Not Ready",
                description.as_str(),
            ),
        );
        analysis.add_recommendation(
            Recommendation::new(
                "Check Machine Status",
                "Investigate machine provisioning and node association",
            ).with_action("oc describe machine <machine-name> -n openshift-machine-api"),
        );
    }
    assert(analysis@.issues =~= start.issues + machine_condition_issues(c@));
    assert(analysis@.recommendations =~= start.recommendations + machine_condition_recommendations(c@));
}

impl MachineAnalyzer {
    pub fn new() -> (r: MachineAnalyzer) {
        MachineAnalyzer
    }

    fn calculate_health_score(&self, resource: &ResourceSnapshot) -> (r: u8)
        ensures
            r == machine_health_score(resource@),
    {
        status_base_score(resource.health_status, 25, 55, 10)
    }
}

impl HealthAnalyzer for MachineAnalyzer {
    open spec fn analysis_of(&self, resource: SnapshotView) -> HealthAnalysisView {
        machine_analysis(resource)
    }

    open spec fn kinds(&self) -> Seq<Seq<char>> {
        seq!["Machine"@]
    }

    fn analyze(&self, resource: &ResourceSnapshot) -> (r: HealthAnalysis) {
        let health_score = self.calculate_health_score(resource);
        let summary = if health_score >= 90 {
            "Machine is healthy and provisioned correctly"
        } else if health_score >= 70 {
            "Machine has minor issues"
        } else {
            "Machine has significant provisioning or health issues"
        };
        let mut analysis = HealthAnalysis::new(health_score, summary);
        let ghost start = analysis@;
        let ghost conds = resource@.conditions;
        let ghost fi = |c: ConditionView| machine_condition_issues(c);
        let ghost fr = |c: ConditionView| machine_condition_recommendations(c);
        assert(analysis@ =~= extend_analysis(start, concat_map(conds.take(0), fi), concat_map(conds.take(0), fr)));
        let mut i: usize = 0;
        while i < resource.conditions.len()
            invariant
                i <= resource.conditions.len(),
                conds == resource@.conditions,
                analysis@ == extend_analysis(
                    start,
                    concat_map(conds.take(i as int), fi),
                    concat_map(conds.take(i as int), fr),
                ),
            decreases resource.conditions.len() - i,
        {
            record_machine_condition(&resource.conditions[i], &mut analysis);
            proof {
                lemma_concat_map_step(conds, fi, i as int);
                lemma_concat_map_step(conds, fr, i as int);
                assert(conds[i as int] == resource.conditions[i as int]@);
                assert(analysis@.issues =~= start.issues + concat_map(conds.take(i + 1), fi));
                assert(analysis@.recommendations =~= start.recommendations + concat_map(conds.take(i + 1), fr));
            }
            i = i + 1;
        }
        assert(conds.take(i as int) =~= conds);
        analysis
    }

    fn supported_kinds(&self) -> (r: Vec<&'static str>) {
        let r = vec!["Machine"];
        assert(r@.map_values(|s: &str| s@) =~= seq!["Machine"@]);
        r
    }
}

} // verus!
