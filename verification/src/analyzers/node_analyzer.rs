//! Health analyzer for Node resources
use super::common::{
    apply_deductions, cond_is, concat_map, condition_is, deduct, extend_analysis,
    has_issue_titled, has_recommendation_titled, lemma_any_add, lemma_concat_map_any,
    lemma_concat_map_step, lemma_deductions_step, reason_or_unknown, sat_sub, seq_any,
    some_condition, status_base_score, status_score,
};
use super::HealthAnalyzer;
use crate::resources::{str_eq, text_or, Condition, ConditionView, ResourceSnapshot, SnapshotView};
use crate::types::{
    has_blocking_issue, is_blocking, new_analysis, new_issue, new_recommendation, HealthAnalysis,
    HealthAnalysisView, Issue, IssueCategory, IssueSeverity, IssueView, Recommendation,
    RecommendationView,
};
use vstd::prelude::*;

verus! {

pub struct NodeAnalyzer;

/// Points a node condition takes off the score.
pub open spec fn node_condition_deduction(c: ConditionView) -> u8 {
    if c.type_ == "Ready"@ && c.status != "True"@ {
        50
    } else if (c.type_ == "MemoryPressure"@ || c.type_ == "DiskPressure"@ || c.type_
        == "PIDPressure"@) && c.status == "True"@ {
        15
    } else if cond_is(c, "NetworkUnavailable"@, "True"@) {
        30
    } else {
        0
    }
}

/// The node health score: 100, less 20/50/10 for a Warning/Error/Unknown
/// status, less the deduction of each condition, never below 0.
pub open spec fn node_health_score(r: SnapshotView) -> u8 {
    apply_deductions(
        status_score(r.health_status, 20, 50, 10),
        r.conditions,
        |c: ConditionView| node_condition_deduction(c),
    )
}

/// The issues one node condition raises.
pub open spec fn node_condition_issues(c: ConditionView) -> Seq<IssueView> {
    if c.type_ == "Ready"@ {
        if c.status != "True"@ {
            seq![
                new_issue(
                    IssueSeverity::Critical,
                    IssueCategory::Availability,
                    "Node Not Ready"@,
                    "Node is not in Ready state: "@ + reason_or_unknown(c),
                ).with_component("Ready condition"@),
            ]
        } else {
            seq![]
        }
    } else if cond_is(c, "MemoryPressure"@, "True"@) {
        seq![
            new_issue(
                IssueSeverity::Warning,
                IssueCategory::Capacity,
                "Memory Pressure Detected"@,
                "Node is experiencing memory pressure, which may affect pod scheduling"@,
            ).with_component("MemoryPressure condition"@),
        ]
    } else if cond_is(c, "DiskPressure"@, "True"@) {
        seq![
            new_issue(
                IssueSeverity::Warning,
                IssueCategory::Storage,
                "Disk Pressure Detected"@,
                "Node is experiencing disk pressure, which may affect pod scheduling"@,
            ).with_component("DiskPressure condition"@),
        ]
    } else if cond_is(c, "PIDPressure"@, "True"@) {
        seq![
            new_issue(
                IssueSeverity::Warning,
                IssueCategory::Capacity,
                "PID Pressure Detected"@,
                "Node is running too many processes"@,
            ).with_component("PIDPressure condition"@),
        ]
    } else if cond_is(c, "NetworkUnavailable"@, "True"@) {
        seq![
            new_issue(
                IssueSeverity::Error,
                IssueCategory::Network,
                "Network Unavailable"@,
                "Node network is not properly configured"@,
            ).with_component("NetworkUnavailable condition"@),
        ]
    } else {
        seq![]
    }
}

/// The recommendations one node condition raises.
pub open spec fn node_condition_recommendations(c: ConditionView) -> Seq<RecommendationView> {
    if c.type_ == "Ready"@ {
        if c.status != "True"@ {
            seq![
                new_recommendation(
                    "Investigate Node Status"@,
                    "Check node logs and kubelet status to determine why the node is not ready"@,
                ).with_action("oc describe node <node-name>"@).with_docs(
                    "https://docs.openshift.com/container-platform/latest/nodes/nodes/nodes-nodes-viewing.html"@,
                ),
            ]
        } else {
            seq![]
        }
    } else if cond_is(c, "MemoryPressure"@, "True"@) {
        seq![
            new_recommendation(
                "Free Up Memory"@,
                "Consider evicting pods or adding more nodes to the cluster"@,
            ).with_action("oc adm top node <node-name>"@),
        ]
    } else if cond_is(c, "DiskPressure"@, "True"@) {
        seq![
            new_recommendation(
                "Free Up Disk Space"@,
                "Clean up unused images and volumes, or add more storage capacity"@,
            ).with_action("oc adm prune images"@),
        ]
    } else if cond_is(c, "PIDPressure"@, "True"@) {
        seq![]
    } else if cond_is(c, "NetworkUnavailable"@, "True"@) {
        seq![
            new_recommendation(
                "Check Network Configuration"@,
                "Verify CNI plugin and network configuration on the node"@,
            ).with_docs(
                "https://docs.openshift.com/container-platform/latest/networking/understanding-networking.html"@,
            ),
        ]
    } else {
        seq![]
    }
}

/// The summary that goes with a node score.
pub open spec fn node_summary(score: u8) -> Seq<char> {
    if score >= 90 {
        "Node is healthy and operating normally"@
    } else if score >= 70 {
        "Node has minor issues that should be monitored"@
    } else if score >= 50 {
        "Node has significant issues requiring attention"@
    } else {
        "Node is in critical condition and needs immediate attention"@
    }
}

/// The full analysis of a node.
pub open spec fn node_analysis(r: SnapshotView) -> HealthAnalysisView {
    let score = node_health_score(r);
    let base = extend_analysis(
        new_analysis(score, node_summary(score)),
        concat_map(r.conditions, |c: ConditionView| node_condition_issues(c)),
        concat_map(r.conditions, |c: ConditionView| node_condition_recommendations(c)),
    );
    if score < 90 {
        base.add_recommendation(
            new_recommendation(
                "Monitor Node Metrics"@,
                "Keep an eye on CPU, memory, and disk usage"@,
            ).with_action("oc adm top node <node-name>"@),
        )
    } else {
        base
    }
}

/// A node condition that says the node is not ready: type Ready, any
/// status but True.
pub open spec fn says_node_not_ready(c: ConditionView) -> bool {
    c.type_ == "Ready"@ && c.status != "True"@
}

/// A node condition that says the node's network is unavailable.
pub open spec fn says_network_unavailable(c: ConditionView) -> bool {
    c.type_ == "NetworkUnavailable"@ && c.status == "True"@
}

/// A node's analysis holds a "Node Not Ready" issue exactly when its Ready
/// condition has a status other than True, and that issue is Critical;
/// "Investigate Node Status" is recommended exactly then. The analysis has
/// an Error or Critical issue (the node is not healthy) exactly when the
/// node is not ready or its network is unavailable: pressure conditions
/// alone only warn.
pub proof fn lemma_node_not_ready_issue(r: SnapshotView)
    ensures
        has_issue_titled(node_analysis(r).issues, "Node Not Ready"@) <==> some_condition(
            r.conditions,
            |c: ConditionView| says_node_not_ready(c),
        ),
        forall|k: int|
            0 <= k < node_analysis(r).issues.len() && #[trigger] node_analysis(r).issues[k].title
                == "Node Not Ready"@ ==> node_analysis(r).issues[k].severity
                == IssueSeverity::Critical,
        has_recommendation_titled(node_analysis(r).recommendations, "Investigate Node Status"@)
            <==> some_condition(r.conditions, |c: ConditionView| says_node_not_ready(c)),
        has_blocking_issue(node_analysis(r).issues) <==> some_condition(
            r.conditions,
            |c: ConditionView| says_node_not_ready(c) || says_network_unavailable(c),
        ),
{
    reveal_strlit("Ready");
    reveal_strlit("MemoryPressure");
    reveal_strlit("DiskPressure");
    reveal_strlit("PIDPressure");
    reveal_strlit("NetworkUnavailable");
    reveal_strlit("Node Not Ready");
    reveal_strlit("Memory Pressure Detected");
    reveal_strlit("Disk Pressure Detected");
    reveal_strlit("PID Pressure Detected");
    reveal_strlit("Network Unavailable");
    reveal_strlit("Investigate Node Status");
    reveal_strlit("Free Up Memory");
    reveal_strlit("Free Up Disk Space");
    reveal_strlit("Check Network Configuration");
    reveal_strlit("Monitor Node Metrics");
    assert("Ready"@.len() == 5 && "MemoryPressure"@.len() == 14 && "DiskPressure"@.len() == 12
        && "PIDPressure"@.len() == 11 && "NetworkUnavailable"@.len() == 18);
    assert("Node Not Ready"@.len() == 14 && "Memory Pressure Detected"@.len() == 24
        && "Disk Pressure Detected"@.len() == 22 && "PID Pressure Detected"@.len() == 21
        && "Network Unavailable"@.len() == 19);
    assert("Investigate Node Status"@.len() == 23 && "Free Up Memory"@.len() == 14
        && "Free Up Disk Space"@.len() == 18 && "Check Network Configuration"@.len() == 27
        && "Monitor Node Metrics"@.len() == 20);
    let a = node_analysis(r);
    let score = node_health_score(r);
    let fi = |c: ConditionView| node_condition_issues(c);
    let fr = |c: ConditionView| node_condition_recommendations(c);
    let pi = |i: IssueView| i.title == "Node Not Ready"@;
    let pbad = |i: IssueView| i.title == "Node Not Ready"@ && i.severity != IssueSeverity::Critical;
    let pb = |i: IssueView| is_blocking(i.severity);
    let pr = |x: RecommendationView| x.title == "Investigate Node Status"@;
    let monitor = new_recommendation(
        "Monitor Node Metrics"@,
        "Keep an eye on CPU, memory, and disk usage"@,
    ).with_action("oc adm top node <node-name>"@);
    let extra: Seq<RecommendationView> = if score < 90 { seq![monitor] } else { seq![] };
    assert(a.issues =~= concat_map(r.conditions, fi));
    assert(a.recommendations =~= concat_map(r.conditions, fr) + extra);
    assert(!seq_any(extra, pr)) by {
        if seq_any(extra, pr) {
            assert(extra[0].title == "Monitor Node Metrics"@);
        }
    }
    lemma_any_add(concat_map(r.conditions, fr), extra, pr);
    lemma_concat_map_any(r.conditions, fi, pi);
    lemma_concat_map_any(r.conditions, fi, pbad);
    lemma_concat_map_any(r.conditions, fi, pb);
    lemma_concat_map_any(r.conditions, fr, pr);
    assert forall|c: ConditionView|
        (#[trigger] seq_any(fi(c), pi) <==> says_node_not_ready(c)) && !seq_any(fi(c), pbad)
            && (seq_any(fi(c), pb) <==> says_node_not_ready(c) || says_network_unavailable(c))
            && (seq_any(fr(c), pr) <==> says_node_not_ready(c)) by {
        if says_node_not_ready(c) {
            assert(fi(c)[0].title == "Node Not Ready"@);
            assert(fr(c)[0].title == "Investigate Node Status"@);
            assert(is_blocking(fi(c)[0].severity));
        }
        if says_network_unavailable(c) {
            assert(fi(c)[0].severity == IssueSeverity::Error);
        }
        if seq_any(fi(c), pi) || seq_any(fi(c), pbad) || seq_any(fi(c), pb) {
            assert(fi(c).len() == 1);
        }
        if seq_any(fr(c), pr) {
            assert(fr(c).len() == 1);
        }
    }
    if has_issue_titled(a.issues, "Node Not Ready"@) {
        let k = choose|k: int| 0 <= k < a.issues.len() && #[trigger] a.issues[k].title == "Node Not Ready"@;
        assert(pi(a.issues[k]));
        let i = choose|i: int| 0 <= i < r.conditions.len() && seq_any(fi(#[trigger] r.conditions[i]), pi);
        assert(says_node_not_ready(r.conditions[i]));
    }
    if some_condition(r.conditions, |c: ConditionView| says_node_not_ready(c)) {
        let j = choose|j: int| 0 <= j < r.conditions.len() && says_node_not_ready(#[trigger] r.conditions[j]);
        assert(seq_any(fi(r.conditions[j]), pi));
        assert(seq_any(fr(r.conditions[j]), pr));
        let k = choose|k: int| 0 <= k < a.issues.len() && pi(#[trigger] a.issues[k]);
        assert(a.issues[k].title == "Node Not Ready"@);
        let q = choose|q: int| 0 <= q < a.recommendations.len() && pr(#[trigger] a.recommendations[q]);
        assert(a.recommendations[q].title == "Investigate Node Status"@);
    }
    if has_recommendation_titled(a.recommendations, "Investigate Node Status"@) {
        let k = choose|k: int| 0 <= k < a.recommendations.len() && #[trigger] a.recommendations[k].title == "Investigate Node Status"@;
        assert(pr(a.recommendations[k]));
        let i = choose|i: int| 0 <= i < r.conditions.len() && seq_any(fr(#[trigger] r.conditions[i]), pr);
        assert(says_node_not_ready(r.conditions[i]));
    }
    if has_blocking_issue(a.issues) {
        let k = choose|k: int| 0 <= k < a.issues.len() && is_blocking(#[trigger] a.issues[k].severity);
        assert(pb(a.issues[k]));
        let i = choose|i: int| 0 <= i < r.conditions.len() && seq_any(fi(#[trigger] r.conditions[i]), pb);
        assert(says_node_not_ready(r.conditions[i]) || says_network_unavailable(r.conditions[i]));
    }
    if some_condition(r.conditions, |c: ConditionView| says_node_not_ready(c) || says_network_unavailable(c)) {
        let j = choose|j: int| 0 <= j < r.conditions.len() && (says_node_not_ready(#[trigger] r.conditions[j]) || says_network_unavailable(r.conditions[j]));
        assert(seq_any(fi(r.conditions[j]), pi) == says_node_not_ready(r.conditions[j]));
        assert(seq_any(fi(r.conditions[j]), pb));
        let k = choose|k: int| 0 <= k < a.issues.len() && pb(#[trigger] a.issues[k]);
        assert(is_blocking(a.issues[k].severity));
    }
    assert forall|k: int|
        0 <= k < a.issues.len() && #[trigger] a.issues[k].title == "Node Not Ready"@ implies a.issues[k].severity
            == IssueSeverity::Critical by {
        if a.issues[k].severity != IssueSeverity::Critical {
            assert(pbad(a.issues[k]));
            assert(seq_any(a.issues, pbad));
        }
    }
}

fn node_condition_points(c: &Condition) -> (r: u8)
    ensures
        r == node_condition_deduction(c@),
{
    let ready = str_eq(c.type_.as_str(), "Ready");
    let is_true = str_eq(c.status.as_str(), "True");
    if ready && !is_true {
        50
    } else if (str_eq(c.type_.as_str(), "MemoryPressure") || str_eq(c.type_.as_str(), "DiskPressure")
        || str_eq(c.type_.as_str(), "PIDPressure")) && is_true {
        15
    } else if condition_is(c, "NetworkUnavailable", "True") {
        30
    } else {
        0
    }
}

fn record_node_condition(c: &Condition, analysis: &mut HealthAnalysis)
    ensures
        final(analysis)@ == extend_analysis(
            old(analysis)@,
            node_condition_issues(c@),
            node_condition_recommendations(c@),
        ),
{
    let ghost start = analysis@;
    if str_eq(c.type_.as_str(), "Ready") {
        if !str_eq(c.status.as_str(), "True") {
            let mut description = String::from_str("Node is not in Ready state: ");
            description.append(text_or(&c.reason, "Unknown"));
            analysis.add_issue(
                Issue::new(
                    IssueSeverity::Critical,
                    IssueCategory::Availability,
                    "Node Not Ready",
                    description.as_str(),
                ).with_component("Ready condition"),
            );
            analysis.add_recommendation(
                Recommendation::new(
                    "Investigate Node Status",
                    "Check node logs and kubelet status to determine why the node is not ready",
                ).with_action("oc describe node <node-name>").with_docs(
                    "https://docs.openshift.com/container-platform/latest/nodes/nodes/nodes-nodes-viewing.html",
                ),
            );
        }
    } else if condition_is(c, "MemoryPressure", "True") {
        analysis.add_issue(
            Issue::new(
                IssueSeverity::Warning,
                IssueCategory::Capacity,
                "Memory Pressure Detected",
                "Node is experiencing memory pressure, which may affect pod scheduling",
            ).with_component("MemoryPressure condition"),
        );
        analysis.add_recommendation(
            Recommendation::new(
                "Free Up Memory",
                "Consider evicting pods or adding more nodes to the cluster",
            ).with_action("oc adm top node <node-name>"),
        );
    } else if condition_is(c, "DiskPressure", "True") {
        analysis.add_issue(
            Issue::new(
                IssueSeverity::Warning,
                IssueCategory::Storage,
                "Disk Pressure Detected",
                "Node is experiencing disk pressure, which may affect pod scheduling",
            ).with_component("DiskPressure condition"),
        );
        analysis.add_recommendation(
            Recommendation::new(
                "Free Up Disk Space",
                "Clean up unused images and volumes, or add more storage capacity",
            ).with_action("oc adm prune images"),
        );
    } else if condition_is(c, "PIDPressure", "True") {
        analysis.add_issue(
            Issue::new(
                IssueSeverity::Warning,
                IssueCategory::Capacity,
                "PID Pressure Detected",
                "Node is running too many processes",
            ).with_component("PIDPressure condition"),
        );

    } else if condition_is(c, "NetworkUnavailable", "True") {
        analysis.add_issue(
            Issue::new(
                IssueSeverity::Error,
                IssueCategory::Network,
                "Network Unavailable",
                "Node network is not properly configured",
            ).with_component("NetworkUnavailable condition"),
        );
        analysis.add_recommendation(
            Recommendation::new(
                "Check Network Configuration",
                "Verify CNI plugin and network configuration on the node",
            ).with_docs(
                "https://docs.openshift.com/container-platform/latest/networking/understanding-networking.html",
            ),
        );
    }
    assert(analysis@.issues =~= start.issues + node_condition_issues(c@));
    assert(analysis@.recommendations =~= start.recommendations + node_condition_recommendations(c@));
}

impl NodeAnalyzer {
    pub fn new() -> (r: NodeAnalyzer) {
        NodeAnalyzer
    }

    fn analyze_conditions(&self, resource: &ResourceSnapshot, analysis: &mut HealthAnalysis)
        ensures
            final(analysis)@ == extend_analysis(
                old(analysis)@,
                concat_map(resource@.conditions, |c: ConditionView| node_condition_issues(c)),
                concat_map(
                    resource@.conditions,
                    |c: ConditionView| node_condition_recommendations(c),
                ),
            ),
    {
        let ghost conds = resource@.conditions;
        let ghost fi = |c: ConditionView| node_condition_issues(c);
        let ghost fr = |c: ConditionView| node_condition_recommendations(c);
        let mut i: usize = 0;
        assert(analysis@ =~= extend_analysis(old(analysis)@, concat_map(conds.take(0), fi), concat_map(conds.take(0), fr)));
        while i < resource.conditions.len()
            invariant
                i <= resource.conditions.len(),
                conds == resource@.conditions,
                analysis@ == extend_analysis(
                    old(analysis)@,
                    concat_map(conds.take(i as int), fi),
                    concat_map(conds.take(i as int), fr),
                ),
            decreases resource.conditions.len() - i,
        {
            let ghost before = analysis@;
            record_node_condition(&resource.conditions[i], analysis);
            proof {
                lemma_concat_map_step(conds, fi, i as int);
                lemma_concat_map_step(conds, fr, i as int);
                assert(conds[i as int] == resource.conditions[i as int]@);
                assert(analysis@.issues =~= old(analysis)@.issues + concat_map(conds.take(i + 1), fi));
                assert(analysis@.recommendations =~= old(analysis)@.recommendations + concat_map(conds.take(i + 1), fr));
            }
            i = i + 1;
        }
        assert(conds.take(i as int) =~= conds);
    }

    fn calculate_health_score(&self, resource: &ResourceSnapshot) -> (r: u8)
        ensures
            r == node_health_score(resource@),
    {
        let ghost conds = resource@.conditions;
        let ghost f = |c: ConditionView| node_condition_deduction(c);
        let base = status_base_score(resource.health_status, 20, 50, 10);
        let mut score = base;
        let mut i: usize = 0;
        assert(conds.take(0).len() == 0);
        while i < resource.conditions.len()
            invariant
                i <= resource.conditions.len(),
                conds == resource@.conditions,
                score == apply_deductions(base, conds.take(i as int), f),
            decreases resource.conditions.len() - i,
        {
            proof {
                lemma_deductions_step(base, conds, f, i as int);
                assert(conds[i as int] == resource.conditions[i as int]@);
            }
            score = deduct(score, node_condition_points(&resource.conditions[i]));
            i = i + 1;
        }
        assert(conds.take(i as int) =~= conds);
        score
    }
}

impl HealthAnalyzer for NodeAnalyzer {
    open spec fn analysis_of(&self, resource: SnapshotView) -> HealthAnalysisView {
        node_analysis(resource)
    }

    open spec fn kinds(&self) -> Seq<Seq<char>> {
        seq!["Node"@]
    }

    fn analyze(&self, resource: &ResourceSnapshot) -> (r: HealthAnalysis) {
        let health_score = self.calculate_health_score(resource);
        let summary = if health_score >= 90 {
            "Node is healthy and operating normally"
        } else if health_score >= 70 {
            "Node has minor issues that should be monitored"
        } else if health_score >= 50 {
            "Node has significant issues requiring attention"
        } else {
            "Node is in critical condition and needs immediate attention"
        };
        let mut analysis = HealthAnalysis::new(health_score, summary);
        self.analyze_conditions(resource, &mut analysis);
        if health_score < 90 {
            analysis.add_recommendation(
                Recommendation::new(
                    "Monitor Node Metrics",
                    "Keep an eye on CPU, memory, and disk usage",
                ).with_action("oc adm top node <node-name>"),
            );
        }
        analysis
    }

    fn supported_kinds(&self) -> (r: Vec<&'static str>) {
        let r = vec!["Node"];
        assert(r@.map_values(|s: &str| s@) =~= seq!["Node"@]);
        r
    }
}

} // verus!
