//! Health analyzer for Storage resources (PVC, PV, StorageClass, VolumeAttachment)
use super::common::{
    concat_map, extend_analysis, lemma_concat_map_step, namespace_or_default, ns_or_default,
    status_base_score, status_score,
};
use super::HealthAnalyzer;
use crate::resources::{
    field_bool, get_field, get_field_bool, lookup_field, str_eq, ResourceSnapshot, SnapshotView,
};
use crate::types::{
    new_analysis, new_issue, new_recommendation, HealthAnalysis, HealthAnalysisView, Issue,
    IssueCategory, IssueSeverity, IssueView, Recommendation, RecommendationView,
};
use vstd::prelude::*;

verus! {

pub struct StorageAnalyzer;

/// The storage health score: 100, less 30/60/10 for a Warning/Error/Unknown status.
pub open spec fn storage_health_score(r: SnapshotView) -> u8 {
    status_score(r.health_status, 30, 60, 10)
}

pub open spec fn phase_is(r: SnapshotView, phase: Seq<char>) -> bool {
    lookup_field(r.key_fields, "phase"@) == Some(phase)
}

pub open spec fn pvc_issues(r: SnapshotView) -> Seq<IssueView> {
    if phase_is(r, "Pending"@) {
        seq![
            new_issue(
                IssueSeverity::Warning,
                IssueCategory::Storage,
                "PVC Pending"@,
                "PersistentVolumeClaim "@ + r.name
                    + " is pending - waiting for volume provisioning"@,
            ),
        ]
    } else if phase_is(r, "Lost"@) {
        seq![
            new_issue(
                IssueSeverity::Critical,
                IssueCategory::Storage,
                "PVC Lost"@,
                "PersistentVolumeClaim "@ + r.name
                    + " is in Lost state - bound volume no longer exists"@,
            ),
        ]
    } else {
        seq![]
    }
}

pub open spec fn pvc_recommendations(r: SnapshotView) -> Seq<RecommendationView> {
    let ns = ns_or_default(r);
    if phase_is(r, "Pending"@) {
        let first = seq![
            new_recommendation(
                "Check Storage Provisioning"@,
                "Verify that a StorageClass exists and can provision volumes"@,
            ).with_action("oc get storageclass && oc describe pvc "@ + r.name + " -n "@ + ns),
        ];
        let sc = match lookup_field(r.key_fields, "storage_class"@) {
            Some(sc) => seq![
                new_recommendation(
                    "Verify StorageClass"@,
                    "Check if StorageClass '"@ + sc + "' is available and properly configured"@,
                ).with_action("oc get storageclass "@ + sc),
            ],
            None => seq![],
        };
        first + sc
    } else if phase_is(r, "Lost"@) {
        seq![
            new_recommendation(
                "Recreate PVC"@,
                "The bound PersistentVolume was deleted. You may need to recreate the PVC"@,
            ).with_action(
                "oc delete pvc "@ + r.name + " -n "@ + ns + " && oc apply -f <pvc-definition>"@,
            ),
        ]
    } else {
        seq![]
    }
}

pub open spec fn pv_issues(r: SnapshotView) -> Seq<IssueView> {
    if phase_is(r, "Available"@) {
        seq![
            new_issue(
                IssueSeverity::Info,
                IssueCategory::Storage,
                "PV Available"@,
                "PersistentVolume "@ + r.name + " is available and ready to be claimed"@,
            ),
        ]
    } else if phase_is(r, "Released"@) {
        seq![
            new_issue(
                IssueSeverity::Warning,
                IssueCategory::Storage,
                "PV Released"@,
                "PersistentVolume "@ + r.name
                    + " is released - claim was deleted but volume not reclaimed"@,
            ),
        ]
    } else if phase_is(r, "Failed"@) {
        seq![
            new_issue(
                IssueSeverity::Critical,
                IssueCategory::Storage,
                "PV Failed"@,
                "PersistentVolume "@ + r.name + " is in Failed state"@,
            ),
        ]
    } else {
        seq![]
    }
}

pub open spec fn pv_recommendations(r: SnapshotView) -> Seq<RecommendationView> {
    if phase_is(r, "Available"@) {
        seq![]
    } else if phase_is(r, "Released"@) {
        seq![
            new_recommendation(
                "Reclaim Volume"@,
                "Manually reclaim the volume or delete it if no longer needed"@,
            ).with_action("oc delete pv "@ + r.name),
        ]
    } else if phase_is(r, "Failed"@) {
        seq![
            new_recommendation(
                "Investigate Failure"@,
                "Check PV events and status for failure details"@,
            ).with_action("oc describe pv "@ + r.name),
        ]
    } else {
        seq![]
    }
}

pub open spec fn attachment_failed(r: SnapshotView) -> bool {
    field_bool(r.key_fields, "attached"@) == Some(false)
}

/// One `Attachment Error` issue per error of the resource.
pub open spec fn attachment_error_issue(e: Seq<char>) -> Seq<IssueView> {
    seq![new_issue(IssueSeverity::Error, IssueCategory::Storage, "Attachment Error"@, e)]
}

pub open spec fn attachment_issues(r: SnapshotView) -> Seq<IssueView> {
    if attachment_failed(r) {
        if r.errors.len() > 0 {
            seq![
                new_issue(
                    IssueSeverity::Error,
                    IssueCategory::Storage,
                    "Volume Attachment Failed"@,
                    "VolumeAttachment "@ + r.name + " failed to attach"@,
                ),
            ] + concat_map(r.errors, |e: Seq<char>| attachment_error_issue(e))
        } else {
            seq![
                new_issue(
                    IssueSeverity::Warning,
                    IssueCategory::Storage,
                    "Volume Not Attached"@,
                    "VolumeAttachment "@ + r.name + " is not yet attached"@,
                ),
            ]
        }
    } else {
        seq![]
    }
}

pub open spec fn attachment_recommendations(r: SnapshotView) -> Seq<RecommendationView> {
    if attachment_failed(r) {
        let first = seq![
            new_recommendation(
                "Check Node and Volume"@,
                "Verify that the node is ready and the volume is accessible"@,
            ).with_action("oc describe volumeattachment "@ + r.name),
        ];
        let node = match lookup_field(r.key_fields, "node_name"@) {
            Some(node) => seq![
                new_recommendation(
                    "Check Node Status"@,
                    "Verify that node '"@ + node + "' is ready and can attach volumes"@,
                ).with_action("oc get node "@ + node + " -o wide"@),
            ],
            None => seq![],
        };
        first + node
    } else {
        seq![]
    }
}

pub open spec fn storage_issues(r: SnapshotView) -> Seq<IssueView> {
    if r.kind == "PersistentVolumeClaim"@ {
        pvc_issues(r)
    } else if r.kind == "PersistentVolume"@ {
        pv_issues(r)
    } else if r.kind == "VolumeAttachment"@ {
        attachment_issues(r)
    } else if r.kind == "StorageClass"@ {
        seq![
            new_issue(
                IssueSeverity::Info,
                IssueCategory::Storage,
                "StorageClass Configuration"@,
                "StorageClass "@ + r.name + " is a configuration object"@,
            ),
        ]
    } else {
        seq![]
    }
}

pub open spec fn storage_recommendations(r: SnapshotView) -> Seq<RecommendationView> {
    if r.kind == "PersistentVolumeClaim"@ {
        pvc_recommendations(r)
    } else if r.kind == "PersistentVolume"@ {
        pv_recommendations(r)
    } else if r.kind == "VolumeAttachment"@ {
        attachment_recommendations(r)
    } else {
        seq![]
    }
}

pub open spec fn storage_summary(r: SnapshotView) -> Seq<char> {
    let label = if r.kind == "PersistentVolumeClaim"@ {
        "PVC "@
    } else if r.kind == "PersistentVolume"@ {
        "PV "@
    } else if r.kind == "StorageClass"@ {
        "StorageClass "@
    } else if r.kind == "VolumeAttachment"@ {
        "VolumeAttachment "@
    } else {
        "Storage resource "@
    };
    label + r.name + " health analysis"@
}

/// Some issue is more than informational.
pub open spec fn has_actionable_issue(issues: Seq<IssueView>) -> bool {
    exists|i: int| 0 <= i < issues.len() && #[trigger] issues[i].severity != IssueSeverity::Info
}

/// The full analysis of a storage resource: the kind-specific findings,
/// then a pointer to the events when some issue is more than informational.
pub open spec fn storage_analysis(r: SnapshotView) -> HealthAnalysisView {
    let issues = storage_issues(r);
    let general = if issues.len() > 0 && has_actionable_issue(issues) {
        seq![
            new_recommendation(
                "Review Storage Events"@,
                "Check cluster events for storage-related issues"@,
            ).with_action("oc get events --all-namespaces --field-selector involvedObject.name="@ + r.name),
        ]
    } else {
        seq![]
    };
    extend_analysis(
        new_analysis(storage_health_score(r), storage_summary(r)),
        issues,
        storage_recommendations(r) + general,
    )
}

fn join_name(prefix: &str, resource: &ResourceSnapshot, suffix: &str) -> (r: String)
    ensures
        r@ == prefix@ + resource@.name + suffix@,
{
    let mut s = String::from_str(prefix);
    s.append(resource.name.as_str());
    s.append(suffix);
    s
}

fn phase_matches(resource: &ResourceSnapshot, phase: &str) -> (r: bool)
    ensures
        r == phase_is(resource@, phase@),
{
    match get_field(&resource.key_fields, "phase") {
        Some(p) => str_eq(p.as_str(), phase),
        None => false,
    }
}

fn any_actionable(analysis: &HealthAnalysis) -> (r: bool)
    ensures
        r == has_actionable_issue(analysis@.issues),
{
    let mut i: usize = 0;
    while i < analysis.issues.len()
        invariant
            i <= analysis.issues.len(),
            forall|k: int| 0 <= k < i ==> #[trigger] analysis@.issues[k].severity == IssueSeverity::Info,
        decreases analysis.issues.len() - i,
    {
        assert(analysis@.issues[i as int] == analysis.issues[i as int]@);
        match analysis.issues[i].severity {
            IssueSeverity::Info => {},
            _ => {
                assert(analysis@.issues[i as int].severity != IssueSeverity::Info);
                return true;
            },
        }
        i = i + 1;
    }
    false
}

impl StorageAnalyzer {
    pub fn new() -> (r: StorageAnalyzer) {
        StorageAnalyzer
    }

    fn calculate_health_score(&self, resource: &ResourceSnapshot) -> (r: u8)
        ensures
            r == storage_health_score(resource@),
    {
        status_base_score(resource.health_status, 30, 60, 10)
    }

    fn analyze_pvc(&self, resource: &ResourceSnapshot, analysis: &mut HealthAnalysis)
        ensures
            final(analysis)@ == extend_analysis(
                old(analysis)@,
                pvc_issues(resource@),
                pvc_recommendations(resource@),
            ),
    {
        let ghost start = analysis@;
        if phase_matches(resource, "Pending") {
            let d = join_name(
                "PersistentVolumeClaim ",
                resource,
                " is pending - waiting for volume provisioning",
            );
            analysis.add_issue(
                Issue::new(IssueSeverity::Warning, IssueCategory::Storage, "PVC Pending", d.as_str()),
            );
            let mut a = join_name("oc get storageclass && oc describe pvc ", resource, " -n ");
            a.append(namespace_or_default(resource));
            analysis.add_recommendation(
                Recommendation::new(
                    "Check Storage Provisioning",
                    "Verify that a StorageClass exists and can provision volumes",
                ).with_action(a.as_str()),
            );
            match get_field(&resource.key_fields, "storage_class") {
                Some(sc) => {
                    let mut d2 = String::from_str("Check if StorageClass '");
                    d2.append(sc.as_str());
                    d2.append("' is available and properly configured");
                    let mut a2 = String::from_str("oc get storageclass ");
                    a2.append(sc.as_str());
                    analysis.add_recommendation(
                        Recommendation::new("Verify StorageClass", d2.as_str()).with_action(
                            a2.as_str(),
                        ),
                    );
                },
                None => {},
            }
        } else if phase_matches(resource, "Lost") {
            let d = join_name(
                "PersistentVolumeClaim ",
                resource,
                " is in Lost state - bound volume no longer exists",
            );
            analysis.add_issue(
                Issue::new(IssueSeverity::Critical, IssueCategory::Storage, "PVC Lost", d.as_str()),
            );
            let mut a = join_name("oc delete pvc ", resource, " -n ");
            a.append(namespace_or_default(resource));
            a.append(" && oc apply -f <pvc-definition>");
            analysis.add_recommendation(
                Recommendation::new(
                    "Recreate PVC",
                    "The bound PersistentVolume was deleted. You may need to recreate the PVC",
                ).with_action(a.as_str()),
            );
        }
        assert(analysis@.issues =~= start.issues + pvc_issues(resource@));
        assert(analysis@.recommendations =~= start.recommendations + pvc_recommendations(resource@));
    }

    fn analyze_pv(&self, resource: &ResourceSnapshot, analysis: &mut HealthAnalysis)
        ensures
            final(analysis)@ == extend_analysis(
                old(analysis)@,
                pv_issues(resource@),
                pv_recommendations(resource@),
            ),
    {
        let ghost start = analysis@;
        if phase_matches(resource, "Available") {
            let d = join_name(
                "PersistentVolume ",
                resource,
                " is available and ready to be claimed",
            );
            analysis.add_issue(
                Issue::new(IssueSeverity::Info, IssueCategory::Storage, "PV Available", d.as_str()),
            );
        } else if phase_matches(resource, "Released") {
            let d = join_name(
                "PersistentVolume ",
                resource,
                " is released - claim was deleted but volume not reclaimed",
            );
            analysis.add_issue(
                Issue::new(IssueSeverity::Warning, IssueCategory::Storage, "PV Released", d.as_str()),
            );
            let a = join_name("oc delete pv ", resource, "");
            analysis.add_recommendation(
                Recommendation::new(
                    "Reclaim Volume",
                    "Manually reclaim the volume or delete it if no longer needed",
                ).with_action(a.as_str()),
            );
        } else if phase_matches(resource, "Failed") {
            let d = join_name("PersistentVolume ", resource, " is in Failed state");
            analysis.add_issue(
                Issue::new(IssueSeverity::Critical, IssueCategory::Storage, "PV Failed", d.as_str()),
            );
            let a = join_name("oc describe pv ", resource, "");
            analysis.add_recommendation(
                Recommendation::new(
                    "Investigate Failure",
                    "Check PV events and status for failure details",
                ).with_action(a.as_str()),
            );
        }
        proof {
            reveal_strlit("");
        }
        assert(analysis@.issues =~= start.issues + pv_issues(resource@));
        assert(analysis@.recommendations =~= start.recommendations + pv_recommendations(resource@));
    }

    fn analyze_volume_attachment(&self, resource: &ResourceSnapshot, analysis: &mut HealthAnalysis)
        ensures
            final(analysis)@ == extend_analysis(
                old(analysis)@,
                attachment_issues(resource@),
                attachment_recommendations(resource@),
            ),
    {
        let ghost start = analysis@;
        match get_field_bool(&resource.key_fields, "attached") {
            Some(attached) => {
                if !attached {
                    if resource.errors.len() > 0 {
                        let d = join_name("VolumeAttachment ", resource, " failed to attach");
                        analysis.add_issue(
                            Issue::new(
                                IssueSeverity::Error,
                                IssueCategory::Storage,
                                "Volume Attachment Failed",
                                d.as_str(),
                            ),
                        );
                        let ghost mid = analysis@;
                        let ghost errs = resource@.errors;
                        let ghost fe = |e: Seq<char>| attachment_error_issue(e);
                        assert(analysis@.issues =~= mid.issues + concat_map(errs.take(0), fe));
                        let mut i: usize = 0;
                        while i < resource.errors.len()
                            invariant
                                i <= resource.errors.len(),
                                errs == resource@.errors,
                                analysis@.issues == mid.issues + concat_map(errs.take(i as int), fe),
                                analysis@.recommendations == mid.recommendations,
                                analysis@.health_score == mid.health_score,
                                analysis@.summary == mid.summary,
                            decreases resource.errors.len() - i,
                        {
                            proof {
                                lemma_concat_map_step(errs, fe, i as int);
                                assert(errs[i as int] == resource.errors[i as int]@);
                            }
                            analysis.add_issue(
                                Issue::new(
                                    IssueSeverity::Error,
                                    IssueCategory::Storage,
                                    "Attachment Error",
                                    resource.errors[i].as_str(),
                                ),
                            );
                            assert(analysis@.issues =~= mid.issues + concat_map(errs.take(i + 1), fe));
                            i = i + 1;
                        }
                        assert(errs.take(i as int) =~= errs);
                    } else {
                        let d = join_name("VolumeAttachment ", resource, " is not yet attached");
                        analysis.add_issue(
                            Issue::new(
                                IssueSeverity::Warning,
                                IssueCategory::Storage,
                                "Volume Not Attached",
                                d.as_str(),
                            ),
                        );
                    }
                    let ghost before_recs = analysis@;
                    let a = join_name("oc describe volumeattachment ", resource, "");
                    analysis.add_recommendation(
                        Recommendation::new(
                            "Check Node and Volume",
                            "Verify that the node is ready and the volume is accessible",
                        ).with_action(a.as_str()),
                    );
                    match get_field(&resource.key_fields, "node_name") {
                        Some(node) => {
                            let mut d2 = String::from_str("Verify that node '");
                            d2.append(node.as_str());
                            d2.append("' is ready and can attach volumes");
                            let mut a2 = String::from_str("oc get node ");
                            a2.append(node.as_str());
                            a2.append(" -o wide");
                            analysis.add_recommendation(
                                Recommendation::new("Check Node Status", d2.as_str()).with_action(
                                    a2.as_str(),
                                ),
                            );
                        },
                        None => {},
                    }
                }
            },
            None => {},
        }
        proof {
            reveal_strlit("");
        }
        assert(analysis@.issues =~= start.issues + attachment_issues(resource@));
        assert(analysis@.recommendations =~= start.recommendations + attachment_recommendations(resource@));
    }
}

impl HealthAnalyzer for StorageAnalyzer {
    open spec fn analysis_of(&self, resource: SnapshotView) -> HealthAnalysisView {
        storage_analysis(resource)
    }

    open spec fn kinds(&self) -> Seq<Seq<char>> {
        seq!["PersistentVolumeClaim"@, "PersistentVolume"@, "StorageClass"@, "VolumeAttachment"@]
    }

    fn analyze(&self, resource: &ResourceSnapshot) -> (r: HealthAnalysis) {
        let health_score = self.calculate_health_score(resource);
        let kind = resource.kind.as_str();
        let label = if str_eq(kind, "PersistentVolumeClaim") {
            "PVC "
        } else if str_eq(kind, "PersistentVolume") {
            "PV "
        } else if str_eq(kind, "StorageClass") {
            "StorageClass "
        } else if str_eq(kind, "VolumeAttachment") {
            "VolumeAttachment "
        } else {
            "Storage resource "
        };
        let summary = join_name(label, resource, " health analysis");
        let mut analysis = HealthAnalysis::new(health_score, summary.as_str());
        let ghost start = analysis@;
        if str_eq(kind, "PersistentVolumeClaim") {
            self.analyze_pvc(resource, &mut analysis);
        } else if str_eq(kind, "PersistentVolume") {
            self.analyze_pv(resource, &mut analysis);
        } else if str_eq(kind, "VolumeAttachment") {
            self.analyze_volume_attachment(resource, &mut analysis);
        } else if str_eq(kind, "StorageClass") {
            let d = join_name("StorageClass ", resource, " is a configuration object");
            analysis.add_issue(
                Issue::new(
                    IssueSeverity::Info,
                    IssueCategory::Storage,
                    "StorageClass Configuration",
                    d.as_str(),
                ),
            );
        }
        assert(analysis@.issues =~= start.issues + storage_issues(resource@));
        assert(analysis@.issues =~= storage_issues(resource@));
        assert(analysis@.recommendations =~= start.recommendations + storage_recommendations(resource@));
        if analysis.issues.len() > 0 && any_actionable(&analysis) {
            let a = join_name(
                "oc get events --all-namespaces --field-selector involvedObject.name=",
                resource,
                "",
            );
            analysis.add_recommendation(
                Recommendation::new(
                    "Review Storage Events",
                    "Check cluster events for storage-related issues",
                ).with_action(a.as_str()),
            );
        }
        proof {
            reveal_strlit("");
        }
        assert(analysis@.recommendations =~= start.recommendations + (storage_recommendations(
            resource@,
        ) + (if storage_issues(resource@).len() > 0 && has_actionable_issue(
            storage_issues(resource@),
        ) {
            seq![
                new_recommendation(
                    "Review Storage Events"@,
                    "Check cluster events for storage-related issues"@,
                ).with_action(
                    "oc get events --all-namespaces --field-selector involvedObject.name="@
                        + resource@.name,
                ),
            ]
        } else {
            seq![]
        })));
        analysis
    }

    fn supported_kinds(&self) -> (r: Vec<&'static str>) {
        let r = vec!["PersistentVolumeClaim", "PersistentVolume", "StorageClass", "VolumeAttachment"];
        assert(r@.map_values(|s: &str| s@) =~= seq![
            "PersistentVolumeClaim"@,
            "PersistentVolume"@,
            "StorageClass"@,
            "VolumeAttachment"@,
        ]);
        r
    }
}

} // verus!
