//! Health analyzer for Networking resources (Route, Service, Endpoints,
//! IngressController)
use super::common::{
    cond_is, concat_map, condition_is, extend_analysis, lemma_concat_map_step,
    namespace_or_default, ns_or_default, status_base_score, status_score,
};
use super::workload_analyzer::events_command;
use super::HealthAnalyzer;
use crate::resources::{
    field_bool, field_i64, field_usize, get_field, get_field_bool, get_field_i64,
    get_field_usize, lookup_field, or_text, str_eq, text_or, Condition, ConditionView,
    ResourceSnapshot, SnapshotView,
};
use crate::text::{decimal, i64_to_text, usize_to_text};
use crate::types::{
    has_blocking_issue, is_blocking, new_analysis, new_issue, new_recommendation, HealthAnalysis,
    HealthAnalysisView, Issue, IssueCategory, IssueSeverity, IssueView, Recommendation,
    RecommendationView,
};
use vstd::prelude::*;

verus! {

pub struct NetworkingAnalyzer;

/// The networking health score: 100, less 25/60/10 for a Warning/Error/Unknown status.
pub open spec fn networking_health_score(r: SnapshotView) -> u8 {
    status_score(r.health_status, 25, 60, 10)
}

pub open spec fn route_not_admitted(r: SnapshotView) -> bool {
    field_bool(r.key_fields, "admitted"@) == Some(false)
}

pub open spec fn route_issues(r: SnapshotView) -> Seq<IssueView> {
    if route_not_admitted(r) {
        seq![
            new_issue(
                IssueSeverity::Critical,
                IssueCategory::Network,
                "Route Not Admitted"@,
                "Route "@ + r.name + " is not admitted - traffic cannot reach this route"@,
            ),
        ]
    } else {
        seq![]
    }
}

pub open spec fn route_recommendations(r: SnapshotView) -> Seq<RecommendationView> {
    let ns = ns_or_default(r);
    if route_not_admitted(r) {
        let first = seq![
            new_recommendation(
                "Check Route Configuration"@,
                "Verify route host, path, and service configuration"@,
            ).with_action("oc describe route "@ + r.name + " -n "@ + ns),
        ];
        let host = match lookup_field(r.key_fields, "host"@) {
            Some(host) => seq![
                new_recommendation(
                    "Verify Route Host"@,
                    "Check if hostname '"@ + host + "' conflicts with existing routes"@,
                ).with_action("oc get routes --all-namespaces -o wide | grep "@ + host),
            ],
            None => seq![],
        };
        let service = match lookup_field(r.key_fields, "service_name"@) {
            Some(svc) => seq![
                new_recommendation(
                    "Check Backend Service"@,
                    "Verify that service '"@ + svc + "' exists and has endpoints"@,
                ).with_action(
                    "oc get service "@ + svc + " -n "@ + ns + " && oc get endpoints "@ + svc
                        + " -n "@ + ns,
                ),
            ],
            None => seq![],
        };
        first + host + service
    } else {
        seq![]
    }
}

pub open spec fn service_without_selector(r: SnapshotView) -> bool {
    match lookup_field(r.key_fields, "selector"@) {
        Some(sel) => sel.len() == 0,
        None => false,
    }
}

pub open spec fn service_issues(r: SnapshotView) -> Seq<IssueView> {
    if service_without_selector(r) {
        seq![
            new_issue(
                IssueSeverity::Warning,
                IssueCategory::Configuration,
                "Service Has No Selector"@,
                "Service "@ + r.name + " has no selector - will not automatically route to pods"@,
            ),
        ]
    } else {
        seq![]
    }
}

pub open spec fn service_recommendations(r: SnapshotView) -> Seq<RecommendationView> {
    let ns = ns_or_default(r);
    let first = if service_without_selector(r) {
        seq![
            new_recommendation(
                "Add Selector or Manual Endpoints"@,
                "Either add a selector to automatically target pods, or manually create endpoints"@,
            ).with_action("oc edit service "@ + r.name + " -n "@ + ns),
        ]
    } else {
        seq![]
    };
    first + seq![
        new_recommendation(
            "Verify Service Endpoints"@,
            "Check that the service has ready endpoints"@,
        ).with_action("oc get endpoints "@ + r.name + " -n "@ + ns),
    ]
}

/// A `usize` key field, 0 when absent or unreadable.
pub open spec fn usize_field_or_zero(r: SnapshotView, key: Seq<char>) -> usize {
    match field_usize(r.key_fields, key) {
        Some(v) => v,
        None => 0,
    }
}

/// An `i64` key field, 0 when absent or unreadable.
pub open spec fn i64_field_or_zero(r: SnapshotView, key: Seq<char>) -> i64 {
    match field_i64(r.key_fields, key) {
        Some(v) => v,
        None => 0,
    }
}

pub open spec fn endpoints_issues(r: SnapshotView) -> Seq<IssueView> {
    let ready = usize_field_or_zero(r, "ready_addresses"@);
    let not_ready = usize_field_or_zero(r, "not_ready_addresses"@);
    if ready == 0 {
        if not_ready > 0 {
            seq![
                new_issue(
                    IssueSeverity::Warning,
                    IssueCategory::Availability,
                    "No Ready Endpoints"@,
                    "Endpoints "@ + r.name + " has no ready addresses - "@ + decimal(
                        not_ready as int,
                    ) + " not ready"@,
                ),
            ]
        } else {
            seq![
                new_issue(
                    IssueSeverity::Error,
                    IssueCategory::Availability,
                    "No Endpoints Available"@,
                    "Endpoints "@ + r.name
                        + " has no addresses - service has no backing pods"@,
                ),
            ]
        }
    } else if not_ready > 0 {
        seq![
            new_issue(
                IssueSeverity::Info,
                IssueCategory::Availability,
                "Some Endpoints Not Ready"@,
                "Endpoints "@ + r.name + " has "@ + decimal(ready as int) + " ready and "@
                    + decimal(not_ready as int) + " not ready addresses"@,
            ),
        ]
    } else {
        seq![]
    }
}

pub open spec fn endpoints_recommendations(r: SnapshotView) -> Seq<RecommendationView> {
    let ready = usize_field_or_zero(r, "ready_addresses"@);
    let not_ready = usize_field_or_zero(r, "not_ready_addresses"@);
    let ns = ns_or_default(r);
    if ready == 0 {
        if not_ready > 0 {
            seq![
                new_recommendation(
                    "Check Pod Readiness"@,
                    "Investigate why pods are not ready"@,
                ).with_action("oc get pods -n "@ + ns + " -o wide"@),
            ]
        } else {
            seq![
                new_recommendation(
                    "Check Service Selector"@,
                    "Verify that the service selector matches existing pods"@,
                ).with_action(
                    "oc describe service "@ + r.name + " -n "@ + ns + " && oc get pods -n "@ + ns
                        + " --show-labels"@,
                ),
            ]
        }
    } else {
        seq![]
    }
}

pub open spec fn ingress_condition_issues(c: ConditionView) -> Seq<IssueView> {
    let degraded = if cond_is(c, "Degraded"@, "True"@) {
        seq![
            new_issue(
                IssueSeverity::Warning,
                IssueCategory::Health,
                "IngressController Degraded"@,
                or_text(c.message, "IngressController is degraded"@),
            ),
        ]
    } else {
        seq![]
    };
    let unavailable = if cond_is(c, "Available"@, "False"@) {
        seq![
            new_issue(
                IssueSeverity::Critical,
                IssueCategory::Availability,
                "IngressController Not Available"@,
                or_text(c.message, "IngressController is not available"@),
            ),
        ]
    } else {
        seq![]
    };
    degraded + unavailable
}

pub open spec fn ingress_replica_issues(r: SnapshotView) -> Seq<IssueView> {
    let replicas = i64_field_or_zero(r, "replicas"@);
    let available = i64_field_or_zero(r, "available_replicas"@);
    if available == 0 {
        seq![
            new_issue(
                IssueSeverity::Critical,
                IssueCategory::Availability,
                "IngressController Unavailable"@,
                "IngressController "@ + r.name
                    + " has no available replicas - ingress is down"@,
            ),
        ]
    } else if available < replicas {
        seq![
            new_issue(
                IssueSeverity::Warning,
                IssueCategory::Availability,
                "IngressController Degraded"@,
                "IngressController "@ + r.name + " has only "@ + decimal(available as int) + "/"@
                    + decimal(replicas as int) + " replicas available"@,
            ),
        ]
    } else {
        seq![]
    }
}

pub open spec fn ingress_issues(r: SnapshotView) -> Seq<IssueView> {
    ingress_replica_issues(r) + concat_map(
        r.conditions,
        |c: ConditionView| ingress_condition_issues(c),
    )
}

pub open spec fn ingress_recommendations(r: SnapshotView) -> Seq<RecommendationView> {
    let replicas = i64_field_or_zero(r, "replicas"@);
    let available = i64_field_or_zero(r, "available_replicas"@);
    if available == 0 {
        seq![
            new_recommendation(
                "Check IngressController Pods"@,
                "Investigate why ingress controller pods are not available"@,
            ).with_action(
                "oc get pods -n openshift-ingress-operator && oc describe ingresscontroller "@
                    + r.name + " -n openshift-ingress-operator"@,
            ),
        ]
    } else if available < replicas {
        seq![
            new_recommendation(
                "Scale IngressController"@,
                "Check why not all replicas are available"@,
            ).with_action(
                "oc get pods -n openshift-ingress -l ingresscontroller.operator.openshift.io/deployment-ingresscontroller="@
                    + r.name,
            ),
        ]
    } else {
        seq![]
    }
}

pub open spec fn networking_issues(r: SnapshotView) -> Seq<IssueView> {
    if r.kind == "Route"@ {
        route_issues(r)
    } else if r.kind == "Service"@ {
        service_issues(r)
    } else if r.kind == "Endpoints"@ {
        endpoints_issues(r)
    } else if r.kind == "IngressController"@ {
        ingress_issues(r)
    } else {
        seq![]
    }
}

pub open spec fn networking_recommendations(r: SnapshotView) -> Seq<RecommendationView> {
    if r.kind == "Route"@ {
        route_recommendations(r)
    } else if r.kind == "Service"@ {
        service_recommendations(r)
    } else if r.kind == "Endpoints"@ {
        endpoints_recommendations(r)
    } else if r.kind == "IngressController"@ {
        ingress_recommendations(r)
    } else {
        seq![]
    }
}

pub open spec fn networking_summary(r: SnapshotView) -> Seq<char> {
    let label = if r.kind == "Route"@ {
        "Route "@
    } else if r.kind == "Service"@ {
        "Service "@
    } else if r.kind == "Endpoints"@ {
        "Endpoints "@
    } else if r.kind == "IngressController"@ {
        "IngressController "@
    } else {
        "Networking resource "@
    };
    label + r.name + " health analysis"@
}

/// The full analysis of a networking resource: the kind-specific findings,
/// then a pointer to the events when some issue is an Error or Critical one.
pub open spec fn networking_analysis(r: SnapshotView) -> HealthAnalysisView {
    let issues = networking_issues(r);
    let general = if has_blocking_issue(issues) {
        seq![
            new_recommendation(
                "Review Network Events"@,
                "Check cluster events for networking-related issues"@,
            ).with_action(events_command(r)),
        ]
    } else {
        seq![]
    };
    extend_analysis(
        new_analysis(networking_health_score(r), networking_summary(r)),
        issues,
        networking_recommendations(r) + general,
    )
}

fn join_name(prefix: &str, resource: &ResourceSnapshot, suffix: &str) -> (r: String)
    ensures
        r@ == prefix@ + resource@.name + suffix@,
{
    let mut s = String::from_str(prefix);
    s.append(resource.name.as_str());
    s.append(suffix);
    s
}

fn name_in_namespace(prefix: &str, resource: &ResourceSnapshot) -> (r: String)
    ensures
        r@ == prefix@ + resource@.name + " -n "@ + ns_or_default(resource@),
{
    let mut s = String::from_str(prefix);
    s.append(resource.name.as_str());
    s.append(" -n ");
    s.append(namespace_or_default(resource));
    s
}

fn usize_or_zero(resource: &ResourceSnapshot, key: &str) -> (r: usize)
    ensures
        r == usize_field_or_zero(resource@, key@),
{
    match get_field_usize(&resource.key_fields, key) {
        Some(v) => v,
        None => 0,
    }
}

fn i64_or_zero(resource: &ResourceSnapshot, key: &str) -> (r: i64)
    ensures
        r == i64_field_or_zero(resource@, key@),
{
    match get_field_i64(&resource.key_fields, key) {
        Some(v) => v,
        None => 0,
    }
}

fn any_blocking(analysis: &HealthAnalysis) -> (r: bool)
    ensures
        r == has_blocking_issue(analysis@.issues),
{
    !analysis.is_healthy()
}

impl NetworkingAnalyzer {
    pub fn new() -> (r: NetworkingAnalyzer) {
        NetworkingAnalyzer
    }

    fn calculate_health_score(&self, resource: &ResourceSnapshot) -> (r: u8)
        ensures
            r == networking_health_score(resource@),
    {
        status_base_score(resource.health_status, 25, 60, 10)
    }

    fn analyze_route(&self, resource: &ResourceSnapshot, analysis: &mut HealthAnalysis)
        ensures
            final(analysis)@ == extend_analysis(
                old(analysis)@,
                route_issues(resource@),
                route_recommendations(resource@),
            ),
    {
        let ghost start = analysis@;
        let ghost ns = ns_or_default(resource@);
        match get_field_bool(&resource.key_fields, "admitted") {
            Some(admitted) => {
                if !admitted {
                    let d = join_name(
                        "Route ",
                        resource,
                        " is not admitted - traffic cannot reach this route",
                    );
                    analysis.add_issue(
                        Issue::new(
                            IssueSeverity::Critical,
                            IssueCategory::Network,
                            "Route Not Admitted",
                            d.as_str(),
                        ),
                    );
                    let a = name_in_namespace("oc describe route ", resource);
                    analysis.add_recommendation(
                        Recommendation::new(
                            "Check Route Configuration",
                            "Verify route host, path, and service configuration",
                        ).with_action(a.as_str()),
                    );
                    let ghost after_first = analysis@.recommendations;
                    match get_field(&resource.key_fields, "host") {
                        Some(host) => {
                            let mut d2 = String::from_str("Check if hostname '");
                            d2.append(host.as_str());
                            d2.append("' conflicts with existing routes");
                            let mut a2 = String::from_str(
                                "oc get routes --all-namespaces -o wide | grep ",
                            );
                            a2.append(host.as_str());
                            analysis.add_recommendation(
                                Recommendation::new("Verify Route Host", d2.as_str()).with_action(
                                    a2.as_str(),
                                ),
                            );
                        },
                        None => {},
                    }
                    let ghost after_host = analysis@.recommendations;
                    match get_field(&resource.key_fields, "service_name") {
                        Some(svc) => {
                            let mut d3 = String::from_str("Verify that service '");
                            d3.append(svc.as_str());
                            d3.append("' exists and has endpoints");
                            let ns_text = namespace_or_default(resource);
                            let mut a3 = String::from_str("oc get service ");
                            a3.append(svc.as_str());
                            a3.append(" -n ");
                            a3.append(ns_text);
                            a3.append(" && oc get endpoints ");
                            a3.append(svc.as_str());
                            a3.append(" -n ");
                            a3.append(ns_text);
                            analysis.add_recommendation(
                                Recommendation::new("Check Backend Service", d3.as_str()).with_action(
                                    a3.as_str(),
                                ),
                            );
                        },
                        None => {},
                    }
                }
            },
            None => {},
        }
        assert(analysis@.issues =~= start.issues + route_issues(resource@));
        assert(analysis@.recommendations =~= start.recommendations + route_recommendations(resource@));
    }

    fn analyze_service(&self, resource: &ResourceSnapshot, analysis: &mut HealthAnalysis)
        ensures
            final(analysis)@ == extend_analysis(
                old(analysis)@,
                service_issues(resource@),
                service_recommendations(resource@),
            ),
    {
        let ghost start = analysis@;
        match get_field(&resource.key_fields, "selector") {
            Some(selector) => {
                if selector.as_str().unicode_len() == 0 {
                    let d = join_name(
                        "Service ",
                        resource,
                        " has no selector - will not automatically route to pods",
                    );
                    analysis.add_issue(
                        Issue::new(
                            IssueSeverity::Warning,
                            IssueCategory::Configuration,
                            "Service Has No Selector",
                            d.as_str(),
                        ),
                    );
                    let a = name_in_namespace("oc edit service ", resource);
                    analysis.add_recommendation(
                        Recommendation::new(
                            "Add Selector or Manual Endpoints",
                            "Either add a selector to automatically target pods, or manually create endpoints",
                        ).with_action(a.as_str()),
                    );
                }
            },
            None => {},
        }
        let a = name_in_namespace("oc get endpoints ", resource);
        analysis.add_recommendation(
            Recommendation::new(
                "Verify Service Endpoints",
                "Check that the service has ready endpoints",
            ).with_action(a.as_str()),
        );
        assert(analysis@.issues =~= start.issues + service_issues(resource@));
        assert(analysis@.recommendations =~= start.recommendations + service_recommendations(resource@));
    }

    fn analyze_endpoints(&self, resource: &ResourceSnapshot, analysis: &mut HealthAnalysis)
        ensures
            final(analysis)@ == extend_analysis(
                old(analysis)@,
                endpoints_issues(resource@),
                endpoints_recommendations(resource@),
            ),
    {
        let ghost start = analysis@;
        let ready_count = usize_or_zero(resource, "ready_addresses");
        let not_ready_count = usize_or_zero(resource, "not_ready_addresses");
        if ready_count == 0 {
            if not_ready_count > 0 {
                let mut d = join_name("Endpoints ", resource, " has no ready addresses - ");
                let n = usize_to_text(not_ready_count);
                d.append(n.as_str());
                d.append(" not ready");
                analysis.add_issue(
                    Issue::new(
                        IssueSeverity::Warning,
                        IssueCategory::Availability,
                        "No Ready Endpoints",
                        d.as_str(),
                    ),
                );
                let mut a = String::from_str("oc get pods -n ");
                a.append(namespace_or_default(resource));
                a.append(" -o wide");
                analysis.add_recommendation(
                    Recommendation::new(
                        "Check Pod Readiness",
                        "Investigate why pods are not ready",
                    ).with_action(a.as_str()),
                );
            } else {
                let d = join_name(
                    "Endpoints ",
                    resource,
                    " has no addresses - service has no backing pods",
                );
                analysis.add_issue(
                    Issue::new(
                        IssueSeverity::Error,
                        IssueCategory::Availability,
                        "No Endpoints Available",
                        d.as_str(),
                    ),
                );
                let mut a = name_in_namespace("oc describe service ", resource);
                a.append(" && oc get pods -n ");
                a.append(namespace_or_default(resource));
                a.append(" --show-labels");
                analysis.add_recommendation(
                    Recommendation::new(
                        "Check Service Selector",
                        "Verify that the service selector matches existing pods",
                    ).with_action(a.as_str()),
                );
            }
        } else if not_ready_count > 0 {
            let mut d = join_name("Endpoints ", resource, " has ");
            let n1 = usize_to_text(ready_count);
            let n2 = usize_to_text(not_ready_count);
            d.append(n1.as_str());
            d.append(" ready and ");
            d.append(n2.as_str());
            d.append(" not ready addresses");
            analysis.add_issue(
                Issue::new(
                    IssueSeverity::Info,
                    IssueCategory::Availability,
                    "Some Endpoints Not Ready",
                    d.as_str(),
                ),
            );
        }
        assert(analysis@.issues =~= start.issues + endpoints_issues(resource@));
        assert(analysis@.recommendations =~= start.recommendations + endpoints_recommendations(resource@));
    }

    fn analyze_ingress_controller(&self, resource: &ResourceSnapshot, analysis: &mut HealthAnalysis)
        ensures
            final(analysis)@ == extend_analysis(
                old(analysis)@,
                ingress_issues(resource@),
                ingress_recommendations(resource@),
            ),
    {
        let ghost start = analysis@;
        let replicas = i64_or_zero(resource, "replicas");
        let available = i64_or_zero(resource, "available_replicas");
        if available == 0 {
            let d = join_name(
                "IngressController ",
                resource,
                " has no available replicas - ingress is down",
            );
            analysis.add_issue(
                Issue::new(
                    IssueSeverity::Critical,
                    IssueCategory::Availability,
                    "IngressController Unavailable",
                    d.as_str(),
                ),
            );
            let a = join_name(
                "oc get pods -n openshift-ingress-operator && oc describe ingresscontroller ",
                resource,
                " -n openshift-ingress-operator",
            );
            analysis.add_recommendation(
                Recommendation::new(
                    "Check IngressController Pods",
                    "Investigate why ingress controller pods are not available",
                ).with_action(a.as_str()),
            );
        } else if available < replicas {
            let mut d = join_name("IngressController ", resource, " has only ");
            let n1 = i64_to_text(available);
            let n2 = i64_to_text(replicas);
            d.append(n1.as_str());
            d.append("/");
            d.append(n2.as_str());
            d.append(" replicas available");
            analysis.add_issue(
                Issue::new(
                    IssueSeverity::Warning,
                    IssueCategory::Availability,
                    "IngressController Degraded",
                    d.as_str(),
                ),
            );
            let a = join_name(
                "oc get pods -n openshift-ingress -l ingresscontroller.operator.openshift.io/deployment-ingresscontroller=",
                resource,
                "",
            );
            analysis.add_recommendation(
                Recommendation::new(
                    "Scale IngressController",
                    "Check why not all replicas are available",
                ).with_action(a.as_str()),
            );
        }
        assert(analysis@.recommendations =~= start.recommendations + ingress_recommendations(resource@)) by {
            reveal_strlit("");
        }
        let ghost mid = analysis@;
        let ghost conds = resource@.conditions;
        let ghost fi = |c: ConditionView| ingress_condition_issues(c);
        assert(mid.issues =~= start.issues + ingress_replica_issues(resource@));
        assert(analysis@.issues =~= mid.issues + concat_map(conds.take(0), fi));
        let mut i: usize = 0;
        while i < resource.conditions.len()
            invariant
                i <= resource.conditions.len(),
                conds == resource@.conditions,
                analysis@.issues == mid.issues + concat_map(conds.take(i as int), fi),
                analysis@.recommendations == mid.recommendations,
                analysis@.health_score == mid.health_score,
                analysis@.summary == mid.summary,
            decreases resource.conditions.len() - i,
        {
            let c = &resource.conditions[i];
            proof {
                lemma_concat_map_step(conds, fi, i as int);
                assert(conds[i as int] == c@);
            }
            let ghost before = analysis@.issues;
            if condition_is(c, "Degraded", "True") {
                let d = String::from_str(text_or(&c.message, "IngressController is degraded"));
                analysis.add_issue(
                    Issue::new(
                        IssueSeverity::Warning,
                        IssueCategory::Health,
                        "IngressController Degraded",
                        d.as_str(),
                    ),
                );
            }
            if condition_is(c, "Available", "False") {
                let d = String::from_str(text_or(&c.message, "IngressController is not available"));
                analysis.add_issue(
                    Issue::new(
                        IssueSeverity::Critical,
                        IssueCategory::Availability,
                        "IngressController Not Available",
                        d.as_str(),
                    ),
                );
            }
            assert(analysis@.issues =~= before + ingress_condition_issues(c@));
            assert(analysis@.issues =~= mid.issues + concat_map(conds.take(i + 1), fi));
            i = i + 1;
        }
        assert(conds.take(i as int) =~= conds);
        assert(analysis@.issues =~= start.issues + ingress_issues(resource@));
    }
}

impl HealthAnalyzer for NetworkingAnalyzer {
    open spec fn analysis_of(&self, resource: SnapshotView) -> HealthAnalysisView {
        networking_analysis(resource)
    }

    open spec fn kinds(&self) -> Seq<Seq<char>> {
        seq!["Route"@, "Service"@, "Endpoints"@, "IngressController"@]
    }

    fn analyze(&self, resource: &ResourceSnapshot) -> (r: HealthAnalysis) {
        let health_score = self.calculate_health_score(resource);
        let kind = resource.kind.as_str();
        let label = if str_eq(kind, "Route") {
            "Route "
        } else if str_eq(kind, "Service") {
            "Service "
        } else if str_eq(kind, "Endpoints") {
            "Endpoints "
        } else if str_eq(kind, "IngressController") {
            "IngressController "
        } else {
            "Networking resource "
        };
        let summary = join_name(label, resource, " health analysis");
        let mut analysis = HealthAnalysis::new(health_score, summary.as_str());
        let ghost start = analysis@;
        if str_eq(kind, "Route") {
            self.analyze_route(resource, &mut analysis);
        } else if str_eq(kind, "Service") {
            self.analyze_service(resource, &mut analysis);
        } else if str_eq(kind, "Endpoints") {
            self.analyze_endpoints(resource, &mut analysis);
        } else if str_eq(kind, "IngressController") {
            self.analyze_ingress_controller(resource, &mut analysis);
        }
        assert(analysis@.issues =~= start.issues + networking_issues(resource@));
        assert(analysis@.issues =~= networking_issues(resource@));
        let ghost mid = analysis@.recommendations;
        assert(mid =~= start.recommendations + networking_recommendations(resource@));
        if any_blocking(&analysis) {
            let mut a = String::from_str("oc get events -n ");
            a.append(namespace_or_default(resource));
            a.append(" --field-selector involvedObject.name=");
            a.append(resource.name.as_str());
            analysis.add_recommendation(
                Recommendation::new(
                    "Review Network Events",
                    "Check cluster events for networking-related issues",
                ).with_action(a.as_str()),
            );
        }
        assert(analysis@.recommendations =~= start.recommendations + (networking_recommendations(
            resource@,
        ) + (if has_blocking_issue(networking_issues(resource@)) {
            seq![
                new_recommendation(
                    "Review Network Events"@,
                    "Check cluster events for networking-related issues"@,
                ).with_action(events_command(resource@)),
            ]
        } else {
            seq![]
        })));
        analysis
    }

    fn supported_kinds(&self) -> (r: Vec<&'static str>) {
        let r = vec!["Route", "Service", "Endpoints", "IngressController"];
        assert(r@.map_values(|s: &str| s@) =~= seq![
            "Route"@,
            "Service"@,
            "Endpoints"@,
            "IngressController"@,
        ]);
        r
    }
}

} // verus!
