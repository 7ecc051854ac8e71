//! Workload controllers: deployments, stateful sets, daemon sets, jobs and
//! cron jobs.
use crate::kinds::workload::{workload_dependency_relationships, workload_links};
use crate::kinds::{
    base_snapshot, base_view, condition_views, conditions_of, int_field, int_or, msg_if,
    number_then, owner_reference_views, owner_references_of, push_field, push_text, ratio,
    ratio_text,
};
use crate::manifest::{doc_at, manifest_has_condition_status, metadata_str, Manifest, ManifestView};
use crate::resources::{
    copy_string, join3, or_text, HealthStatus, ResourceSnapshot, ResourceV2, SnapshotView,
};
use crate::text::{bool_to_text, decimal, i64_to_text, usize_to_text};
use crate::yaml::{bool_of, key_views, str_of, vec_of};
use crate::resources::Resource;
use crate::kinds::{keys2, no_names, two_names};
use vstd::prelude::*;

verus! {

// ---------------------------------------------------------------------------
// Deployment
// ---------------------------------------------------------------------------
/// What a deployment yields.
pub open spec fn deployment_view(m: ManifestView) -> SnapshotView {
    let replicas = int_or(m, "spec"@, "replicas"@, 1);
    let ready = int_or(m, "status"@, "readyReplicas"@, 0);
    let available = int_or(m, "status"@, "availableReplicas"@, 0);
    let unavailable = int_or(m, "status"@, "unavailableReplicas"@, 0);
    let ns = metadata_str(m, "namespace"@);
    SnapshotView {
        health_status: if available < replicas || unavailable > 0 {
            HealthStatus::Error
        } else if ready < replicas {
            HealthStatus::Warning
        } else if manifest_has_condition_status(m, "Available"@, "True"@)
            && manifest_has_condition_status(m, "Progressing"@, "True"@) {
            HealthStatus::Healthy
        } else {
            HealthStatus::Unknown
        },
        conditions: condition_views(m),
        warnings: msg_if(
            ready < replicas && available > 0,
            ratio_text("Only "@, ready, replicas, " replicas are ready"@),
        ),
        errors: msg_if(
            available < replicas,
            ratio_text("Only "@, available, replicas, " replicas are available"@),
        ) + msg_if(unavailable > 0, decimal(unavailable as int) + " replicas are unavailable"@),
        summary: Some(
            "Deployment "@ + m.name + " - "@ + decimal(available as int) + "/"@ + decimal(
                replicas as int,
            ) + " replicas available"@,
        ),
        key_fields: seq![
            ("replicas"@, decimal(replicas as int)),
            ("ready_replicas"@, decimal(ready as int)),
            ("available_replicas"@, decimal(available as int)),
            ("unavailable_replicas"@, decimal(unavailable as int)),
        ],
        owner_references: owner_reference_views(m),
        relationships: workload_links(m),
        ..base_view(m, "Deployment"@, ns)
    }
}

/// A deployment.
#[derive(Debug)]
pub struct Deployment {
    manifest: Manifest,
    namespace: Option<String>,
    replicas: i64,
    ready_replicas: i64,
    available_replicas: i64,
    unavailable_replicas: i64,
}

impl Deployment {
    #[verifier::type_invariant]
    spec fn wf(self) -> bool {
        let m = self.manifest@;
        &&& self.namespace.deep_view() == metadata_str(m, "namespace"@)
        &&& self.replicas == int_or(m, "spec"@, "replicas"@, 1)
        &&& self.ready_replicas == int_or(m, "status"@, "readyReplicas"@, 0)
        &&& self.available_replicas == int_or(m, "status"@, "availableReplicas"@, 0)
        &&& self.unavailable_replicas == int_or(m, "status"@, "unavailableReplicas"@, 0)
    }

    /// The manifest the deployment was read from.
    pub closed spec fn manifest_view(self) -> ManifestView {
        self.manifest@
    }

    /// Reads a deployment from its manifest.
    pub fn from(manifest: Manifest) -> (r: Deployment)
        ensures
            r.manifest_view() == manifest@,
    {
        let namespace = manifest.namespace();
        let replicas = int_field(&manifest, "spec", "replicas", 1);
        let ready_replicas = int_field(&manifest, "status", "readyReplicas", 0);
        let available_replicas = int_field(&manifest, "status", "availableReplicas", 0);
        let unavailable_replicas = int_field(&manifest, "status", "unavailableReplicas", 0);
        Deployment {
            manifest,
            namespace,
            replicas,
            ready_replicas,
            available_replicas,
            unavailable_replicas,
        }
    }
}

impl ResourceV2 for Deployment {
    open spec fn describe(&self) -> SnapshotView {
        deployment_view(self.manifest_view())
    }

    fn snapshot(&self) -> (r: ResourceSnapshot) {
        proof {
            use_type_invariant(self);
        }
        let m = &self.manifest;
        let (replicas, ready, available, unavailable) = (
            self.replicas,
            self.ready_replicas,
            self.available_replicas,
            self.unavailable_replicas,
        );
        let mut s = base_snapshot(m, "Deployment", &self.namespace);
        s.health_status = if available < replicas || unavailable > 0 {
            HealthStatus::Error
        } else if ready < replicas {
            HealthStatus::Warning
        } else if m.has_condition_status("Available", "True") && m.has_condition_status(
            "Progressing",
            "True",
        ) {
            HealthStatus::Healthy
        } else {
            HealthStatus::Unknown
        };
        s.conditions = conditions_of(m);
        if ready < replicas && available > 0 {
            push_text(&mut s.warnings, ratio("Only ", ready, replicas, " replicas are ready"));
        }
        if available < replicas {
            push_text(
                &mut s.errors,
                ratio("Only ", available, replicas, " replicas are available"),
            );
        }
        if unavailable > 0 {
            push_text(&mut s.errors, number_then(unavailable, " replicas are unavailable"));
        }
        let mut summary = join3("Deployment ", m.name.as_str(), " - ");
        summary.append(ratio("", available, replicas, " replicas available").as_str());
        s.summary = Some(summary);
        push_field(&mut s.key_fields, "replicas", i64_to_text(replicas));
        push_field(&mut s.key_fields, "ready_replicas", i64_to_text(ready));
        push_field(&mut s.key_fields, "available_replicas", i64_to_text(available));
        push_field(&mut s.key_fields, "unavailable_replicas", i64_to_text(unavailable));
        s.owner_references = owner_references_of(m);
        s.relationships = workload_dependency_relationships(m);
        proof {
            reveal_strlit("");
            let v = deployment_view(m@);
            assert(s@.warnings =~= v.warnings);
            assert(s@.errors =~= v.errors);
            assert(s@.key_fields =~= v.key_fields);
            assert(s@.summary == v.summary);
        }
        s
    }
}

// ---------------------------------------------------------------------------
// StatefulSet
// ---------------------------------------------------------------------------
/// What a stateful set yields.
pub open spec fn statefulset_view(m: ManifestView) -> SnapshotView {
    let replicas = int_or(m, "spec"@, "replicas"@, 1);
    let ready = int_or(m, "status"@, "readyReplicas"@, 0);
    let current = int_or(m, "status"@, "currentReplicas"@, 0);
    let updated = int_or(m, "status"@, "updatedReplicas"@, 0);
    SnapshotView {
        health_status: if ready < replicas {
            HealthStatus::Error
        } else if updated < replicas {
            HealthStatus::Warning
        } else {
            HealthStatus::Healthy
        },
        conditions: condition_views(m),
        warnings: msg_if(
            updated < replicas && ready > 0,
            ratio_text("Only "@, updated, replicas, " replicas are updated"@),
        ),
        errors: msg_if(ready < replicas, ratio_text("Only "@, ready, replicas, " replicas are ready"@)),
        summary: Some("StatefulSet "@ + m.name + ratio_text(" - "@, ready, replicas, " replicas ready"@)),
        key_fields: seq![
            ("replicas"@, decimal(replicas as int)),
            ("ready_replicas"@, decimal(ready as int)),
            ("current_replicas"@, decimal(current as int)),
            ("updated_replicas"@, decimal(updated as int)),
        ],
        owner_references: owner_reference_views(m),
        relationships: workload_links(m),
        ..base_view(m, "StatefulSet"@, metadata_str(m, "namespace"@))
    }
}

/// A stateful set.
#[derive(Debug)]
pub struct StatefulSet {
    manifest: Manifest,
    namespace: Option<String>,
    replicas: i64,
    ready_replicas: i64,
    current_replicas: i64,
    updated_replicas: i64,
}

impl StatefulSet {
    #[verifier::type_invariant]
    spec fn wf(self) -> bool {
        let m = self.manifest@;
        &&& self.namespace.deep_view() == metadata_str(m, "namespace"@)
        &&& self.replicas == int_or(m, "spec"@, "replicas"@, 1)
        &&& self.ready_replicas == int_or(m, "status"@, "readyReplicas"@, 0)
        &&& self.current_replicas == int_or(m, "status"@, "currentReplicas"@, 0)
        &&& self.updated_replicas == int_or(m, "status"@, "updatedReplicas"@, 0)
    }

    /// The manifest the stateful set was read from.
    pub closed spec fn manifest_view(self) -> ManifestView {
        self.manifest@
    }

    /// Reads a stateful set from its manifest.
    pub fn from(manifest: Manifest) -> (r: StatefulSet)
        ensures
            r.manifest_view() == manifest@,
    {
        let namespace = manifest.namespace();
        let replicas = int_field(&manifest, "spec", "replicas", 1);
        let ready_replicas = int_field(&manifest, "status", "readyReplicas", 0);
        let current_replicas = int_field(&manifest, "status", "currentReplicas", 0);
        let updated_replicas = int_field(&manifest, "status", "updatedReplicas", 0);
        StatefulSet { manifest, namespace, replicas, ready_replicas, current_replicas, updated_replicas }
    }
}

impl ResourceV2 for StatefulSet {
    open spec fn describe(&self) -> SnapshotView {
        statefulset_view(self.manifest_view())
    }

    fn snapshot(&self) -> (r: ResourceSnapshot) {
        proof {
            use_type_invariant(self);
        }
        let m = &self.manifest;
        let (replicas, ready, current, updated) = (
            self.replicas,
            self.ready_replicas,
            self.current_replicas,
            self.updated_replicas,
        );
        let mut s = base_snapshot(m, "StatefulSet", &self.namespace);
        s.health_status = if ready < replicas {
            HealthStatus::Error
        } else if updated < replicas {
            HealthStatus::Warning
        } else {
            HealthStatus::Healthy
        };
        s.conditions = conditions_of(m);
        if updated < replicas && ready > 0 {
            push_text(&mut s.warnings, ratio("Only ", updated, replicas, " replicas are updated"));
        }
        if ready < replicas {
            push_text(&mut s.errors, ratio("Only ", ready, replicas, " replicas are ready"));
        }
        let mut summary = join3("StatefulSet ", m.name.as_str(), "");
        summary.append(ratio(" - ", ready, replicas, " replicas ready").as_str());
        s.summary = Some(summary);
        push_field(&mut s.key_fields, "replicas", i64_to_text(replicas));
        push_field(&mut s.key_fields, "ready_replicas", i64_to_text(ready));
        push_field(&mut s.key_fields, "current_replicas", i64_to_text(current));
        push_field(&mut s.key_fields, "updated_replicas", i64_to_text(updated));
        s.owner_references = owner_references_of(m);
        s.relationships = workload_dependency_relationships(m);
        proof {
            reveal_strlit("");
            let v = statefulset_view(m@);
            assert(s@.warnings =~= v.warnings);
            assert(s@.errors =~= v.errors);
            assert(s@.key_fields =~= v.key_fields);
            assert(s@.summary == v.summary);
        }
        s
    }
}

// ---------------------------------------------------------------------------
// DaemonSet
// ---------------------------------------------------------------------------
/// What a daemon set yields.
pub open spec fn daemonset_view(m: ManifestView) -> SnapshotView {
    let desired = int_or(m, "status"@, "desiredNumberScheduled"@, 0);
    let current = int_or(m, "status"@, "currentNumberScheduled"@, 0);
    let ready = int_or(m, "status"@, "numberReady"@, 0);
    let available = int_or(m, "status"@, "numberAvailable"@, 0);
    let unavailable = int_or(m, "status"@, "numberUnavailable"@, 0);
    let misscheduled = int_or(m, "status"@, "numberMisscheduled"@, 0);
    SnapshotView {
        health_status: if ready < desired || unavailable > 0 || misscheduled > 0 {
            HealthStatus::Error
        } else if current < desired {
            HealthStatus::Warning
        } else {
            HealthStatus::Healthy
        },
        conditions: condition_views(m),
        warnings: msg_if(current < desired, ratio_text("Only "@, current, desired, " pods scheduled"@)),
        errors: msg_if(ready < desired, ratio_text("Only "@, ready, desired, " pods ready"@)) + msg_if(
            unavailable > 0,
            decimal(unavailable as int) + " pods unavailable"@,
        ) + msg_if(misscheduled > 0, decimal(misscheduled as int) + " pods misscheduled"@),
        summary: Some("DaemonSet "@ + m.name + ratio_text(" - "@, ready, desired, " pods ready"@)),
        key_fields: seq![
            ("desired_number_scheduled"@, decimal(desired as int)),
            ("current_number_scheduled"@, decimal(current as int)),
            ("number_ready"@, decimal(ready as int)),
            ("number_available"@, decimal(available as int)),
            ("number_unavailable"@, decimal(unavailable as int)),
            ("number_misscheduled"@, decimal(misscheduled as int)),
        ],
        owner_references: owner_reference_views(m),
        relationships: workload_links(m),
        ..base_view(m, "DaemonSet"@, metadata_str(m, "namespace"@))
    }
}

/// A daemon set.
#[derive(Debug)]
pub struct DaemonSet {
    manifest: Manifest,
    namespace: Option<String>,
    desired_number_scheduled: i64,
    current_number_scheduled: i64,
    number_ready: i64,
    number_available: i64,
    number_unavailable: i64,
    number_misscheduled: i64,
}

impl DaemonSet {
    #[verifier::type_invariant]
    spec fn wf(self) -> bool {
        let m = self.manifest@;
        &&& self.namespace.deep_view() == metadata_str(m, "namespace"@)
        &&& self.desired_number_scheduled == int_or(m, "status"@, "desiredNumberScheduled"@, 0)
        &&& self.current_number_scheduled == int_or(m, "status"@, "currentNumberScheduled"@, 0)
        &&& self.number_ready == int_or(m, "status"@, "numberReady"@, 0)
        &&& self.number_available == int_or(m, "status"@, "numberAvailable"@, 0)
        &&& self.number_unavailable == int_or(m, "status"@, "numberUnavailable"@, 0)
        &&& self.number_misscheduled == int_or(m, "status"@, "numberMisscheduled"@, 0)
    }

    /// The manifest the daemon set was read from.
    pub closed spec fn manifest_view(self) -> ManifestView {
        self.manifest@
    }

    /// Reads a daemon set from its manifest.
    pub fn from(manifest: Manifest) -> (r: DaemonSet)
        ensures
            r.manifest_view() == manifest@,
    {
        let namespace = manifest.namespace();
        let desired_number_scheduled = int_field(&manifest, "status", "desiredNumberScheduled", 0);
        let current_number_scheduled = int_field(&manifest, "status", "currentNumberScheduled", 0);
        let number_ready = int_field(&manifest, "status", "numberReady", 0);
        let number_available = int_field(&manifest, "status", "numberAvailable", 0);
        let number_unavailable = int_field(&manifest, "status", "numberUnavailable", 0);
        let number_misscheduled = int_field(&manifest, "status", "numberMisscheduled", 0);
        DaemonSet {
            manifest,
            namespace,
            desired_number_scheduled,
            current_number_scheduled,
            number_ready,
            number_available,
            number_unavailable,
            number_misscheduled,
        }
    }
}

impl ResourceV2 for DaemonSet {
    open spec fn describe(&self) -> SnapshotView {
        daemonset_view(self.manifest_view())
    }

    fn snapshot(&self) -> (r: ResourceSnapshot) {
        proof {
            use_type_invariant(self);
        }
        let m = &self.manifest;
        let desired = self.desired_number_scheduled;
        let current = self.current_number_scheduled;
        let ready = self.number_ready;
        let available = self.number_available;
        let unavailable = self.number_unavailable;
        let misscheduled = self.number_misscheduled;
        let mut s = base_snapshot(m, "DaemonSet", &self.namespace);
        s.health_status = if ready < desired || unavailable > 0 || misscheduled > 0 {
            HealthStatus::Error
        } else if current < desired {
            HealthStatus::Warning
        } else {
            HealthStatus::Healthy
        };
        s.conditions = conditions_of(m);
        if current < desired {
            push_text(&mut s.warnings, ratio("Only ", current, desired, " pods scheduled"));
        }
        if ready < desired {
            push_text(&mut s.errors, ratio("Only ", ready, desired, " pods ready"));
        }
        if unavailable > 0 {
            push_text(&mut s.errors, number_then(unavailable, " pods unavailable"));
        }
        if misscheduled > 0 {
            push_text(&mut s.errors, number_then(misscheduled, " pods misscheduled"));
        }
        let mut summary = join3("DaemonSet ", m.name.as_str(), "");
        summary.append(ratio(" - ", ready, desired, " pods ready").as_str());
        s.summary = Some(summary);
        push_field(&mut s.key_fields, "desired_number_scheduled", i64_to_text(desired));
        push_field(&mut s.key_fields, "current_number_scheduled", i64_to_text(current));
        push_field(&mut s.key_fields, "number_ready", i64_to_text(ready));
        push_field(&mut s.key_fields, "number_available", i64_to_text(available));
        push_field(&mut s.key_fields, "number_unavailable", i64_to_text(unavailable));
        push_field(&mut s.key_fields, "number_misscheduled", i64_to_text(misscheduled));
        s.owner_references = owner_references_of(m);
        s.relationships = workload_dependency_relationships(m);
        proof {
            reveal_strlit("");
            let v = daemonset_view(m@);
            assert(s@.warnings =~= v.warnings);
            assert(s@.errors =~= v.errors);
            assert(s@.key_fields =~= v.key_fields);
            assert(s@.summary == v.summary);
        }
        s
    }
}

// ---------------------------------------------------------------------------
// Job
// ---------------------------------------------------------------------------
/// The status word of a job.
pub open spec fn job_status_word(m: ManifestView, active: i64) -> Seq<char> {
    if manifest_has_condition_status(m, "Complete"@, "True"@) {
        "Complete"@
    } else if manifest_has_condition_status(m, "Failed"@, "True"@) {
        "Failed"@
    } else if active > 0 {
        "Running"@
    } else {
        "Pending"@
    }
}

/// What a job yields.
pub open spec fn job_view(m: ManifestView) -> SnapshotView {
    let completions = int_or(m, "spec"@, "completions"@, 1);
    let succeeded = int_or(m, "status"@, "succeeded"@, 0);
    let failed = int_or(m, "status"@, "failed"@, 0);
    let active = int_or(m, "status"@, "active"@, 0);
    let has_failed = manifest_has_condition_status(m, "Failed"@, "True"@);
    SnapshotView {
        health_status: if failed > 0 || has_failed {
            HealthStatus::Error
        } else if manifest_has_condition_status(m, "Complete"@, "True"@) {
            HealthStatus::Healthy
        } else if active > 0 {
            HealthStatus::Warning
        } else {
            HealthStatus::Unknown
        },
        conditions: condition_views(m),
        warnings: msg_if(
            active > 0 && succeeded < completions,
            ratio_text("Job in progress: "@, succeeded, completions, " completions"@),
        ),
        errors: msg_if(failed > 0, decimal(failed as int) + " pods failed"@) + msg_if(
            has_failed,
            "Job has failed"@,
        ),
        summary: Some(
            "Job "@ + m.name + " - Status: "@ + job_status_word(m, active) + ratio_text(
                " ("@,
                succeeded,
                completions,
                " completions)"@,
            ),
        ),
        key_fields: seq![
            ("completions"@, decimal(completions as int)),
            ("succeeded"@, decimal(succeeded as int)),
            ("failed"@, decimal(failed as int)),
            ("active"@, decimal(active as int)),
        ],
        owner_references: owner_reference_views(m),
        relationships: workload_links(m),
        ..base_view(m, "Job"@, metadata_str(m, "namespace"@))
    }
}

/// A job.
#[derive(Debug)]
pub struct Job {
    manifest: Manifest,
    namespace: Option<String>,
    completions: i64,
    succeeded: i64,
    failed: i64,
    active: i64,
}

impl Job {
    #[verifier::type_invariant]
    spec fn wf(self) -> bool {
        let m = self.manifest@;
        &&& self.namespace.deep_view() == metadata_str(m, "namespace"@)
        &&& self.completions == int_or(m, "spec"@, "completions"@, 1)
        &&& self.succeeded == int_or(m, "status"@, "succeeded"@, 0)
        &&& self.failed == int_or(m, "status"@, "failed"@, 0)
        &&& self.active == int_or(m, "status"@, "active"@, 0)
    }

    /// The manifest the job was read from.
    pub closed spec fn manifest_view(self) -> ManifestView {
        self.manifest@
    }

    /// Reads a job from its manifest.
    pub fn from(manifest: Manifest) -> (r: Job)
        ensures
            r.manifest_view() == manifest@,
    {
        let namespace = manifest.namespace();
        let completions = int_field(&manifest, "spec", "completions", 1);
        let succeeded = int_field(&manifest, "status", "succeeded", 0);
        let failed = int_field(&manifest, "status", "failed", 0);
        let active = int_field(&manifest, "status", "active", 0);
        Job { manifest, namespace, completions, succeeded, failed, active }
    }
}

impl ResourceV2 for Job {
    open spec fn describe(&self) -> SnapshotView {
        job_view(self.manifest_view())
    }

    fn snapshot(&self) -> (r: ResourceSnapshot) {
        proof {
            use_type_invariant(self);
        }
        let m = &self.manifest;
        let (completions, succeeded, failed, active) = (
            self.completions,
            self.succeeded,
            self.failed,
            self.active,
        );
        let has_failed = m.has_condition_status("Failed", "True");
        let complete = m.has_condition_status("Complete", "True");
        let mut s = base_snapshot(m, "Job", &self.namespace);
        s.health_status = if failed > 0 || has_failed {
            HealthStatus::Error
        } else if complete {
            HealthStatus::Healthy
        } else if active > 0 {
            HealthStatus::Warning
        } else {
            HealthStatus::Unknown
        };
        s.conditions = conditions_of(m);
        if active > 0 && succeeded < completions {
            push_text(
                &mut s.warnings,
                ratio("Job in progress: ", succeeded, completions, " completions"),
            );
        }
        if failed > 0 {
            push_text(&mut s.errors, number_then(failed, " pods failed"));
        }
        if has_failed {
            push_text(&mut s.errors, String::from_str("Job has failed"));
        }
        let word = if complete {
            "Complete"
        } else if has_failed {
            "Failed"
        } else if active > 0 {
            "Running"
        } else {
            "Pending"
        };
        let mut summary = join3("Job ", m.name.as_str(), " - Status: ");
        summary.append(word);
        summary.append(ratio(" (", succeeded, completions, " completions)").as_str());
        s.summary = Some(summary);
        push_field(&mut s.key_fields, "completions", i64_to_text(completions));
        push_field(&mut s.key_fields, "succeeded", i64_to_text(succeeded));
        push_field(&mut s.key_fields, "failed", i64_to_text(failed));
        push_field(&mut s.key_fields, "active", i64_to_text(active));
        s.owner_references = owner_references_of(m);
        s.relationships = workload_dependency_relationships(m);
        proof {
            let v = job_view(m@);
            assert(s@.warnings =~= v.warnings);
            assert(s@.errors =~= v.errors);
            assert(s@.key_fields =~= v.key_fields);
            assert(s@.summary == v.summary);
        }
        s
    }
}

// ---------------------------------------------------------------------------
// CronJob
// ---------------------------------------------------------------------------
/// The number of active jobs of a cron job.
pub open spec fn active_jobs_of(m: ManifestView) -> i64 {
    match vec_of(doc_at(m, seq!["status"@, "active"@])) {
        Some(v) => v.len() as i64,
        None => 0,
    }
}

/// What a cron job yields.
pub open spec fn cronjob_view(m: ManifestView) -> SnapshotView {
    let schedule = or_text(str_of(doc_at(m, seq!["spec"@, "schedule"@])), ""@);
    let suspend = match bool_of(doc_at(m, seq!["spec"@, "suspend"@])) {
        Some(b) => b,
        None => false,
    };
    let active = active_jobs_of(m);
    let last = str_of(doc_at(m, seq!["status"@, "lastScheduleTime"@]));
    SnapshotView {
        health_status: if suspend {
            HealthStatus::Warning
        } else {
            HealthStatus::Healthy
        },
        conditions: condition_views(m),
        warnings: msg_if(suspend, "CronJob is suspended"@),
        summary: Some(
            "CronJob "@ + m.name + " - Status: "@ + (if suspend {
                "Suspended"@
            } else if active > 0 {
                "Active"@
            } else {
                "Scheduled"@
            }) + ", Schedule: "@ + schedule,
        ),
        key_fields: seq![
            ("schedule"@, schedule),
            ("suspend"@, if suspend { "true"@ } else { "false"@ }),
            ("active_jobs"@, decimal(active as int)),
        ] + match last {
            Some(t) => seq![("last_schedule_time"@, t)],
            None => Seq::empty(),
        },
        owner_references: owner_reference_views(m),
        relationships: workload_links(m),
        ..base_view(m, "CronJob"@, metadata_str(m, "namespace"@))
    }
}

/// A cron job.
#[derive(Debug)]
pub struct CronJob {
    manifest: Manifest,
    namespace: Option<String>,
    schedule: String,
    suspend: bool,
    active_jobs: i64,
    last_schedule_time: Option<String>,
}

impl CronJob {
    #[verifier::type_invariant]
    spec fn wf(self) -> bool {
        let m = self.manifest@;
        &&& self.namespace.deep_view() == metadata_str(m, "namespace"@)
        &&& self.schedule@ == or_text(str_of(doc_at(m, seq!["spec"@, "schedule"@])), ""@)
        &&& self.suspend == match bool_of(doc_at(m, seq!["spec"@, "suspend"@])) {
            Some(b) => b,
            None => false,
        }
        &&& self.active_jobs == active_jobs_of(m)
        &&& self.last_schedule_time.deep_view() == str_of(
            doc_at(m, seq!["status"@, "lastScheduleTime"@]),
        )
    }

    /// The manifest the cron job was read from.
    pub closed spec fn manifest_view(self) -> ManifestView {
        self.manifest@
    }

    /// Reads a cron job from its manifest.
    pub fn from(manifest: Manifest) -> (r: CronJob)
        ensures
            r.manifest_view() == manifest@,
    {
        proof {
            reveal_strlit("");
        }
        let namespace = manifest.namespace();
        let k1: [&str; 2] = ["spec", "schedule"];
        assert(key_views(k1@) =~= seq!["spec"@, "schedule"@]);
        let k2: [&str; 2] = ["spec", "suspend"];
        assert(key_views(k2@) =~= seq!["spec"@, "suspend"@]);
        let k3: [&str; 2] = ["status", "active"];
        assert(key_views(k3@) =~= seq!["status"@, "active"@]);
        let k4: [&str; 2] = ["status", "lastScheduleTime"];
        assert(key_views(k4@) =~= seq!["status"@, "lastScheduleTime"@]);
        let schedule = match manifest.at(&k1) {
            Some(n) => match n.as_str() {
                Some(t) => String::from_str(t),
                None => String::new(),
            },
            None => String::new(),
        };
        let suspend = match manifest.at(&k2) {
            Some(n) => match n.as_bool() {
                Some(b) => b,
                None => false,
            },
            None => false,
        };
        let active_jobs = match manifest.at(&k3) {
            Some(n) => match n.as_vec() {
                Some(v) => v.len() as i64,
                None => 0,
            },
            None => 0,
        };
        let last_schedule_time = match manifest.at(&k4) {
            Some(n) => match n.as_str() {
                Some(t) => Some(String::from_str(t)),
                None => None,
            },
            None => None,
        };
        let ghost m = manifest@;
        assert(schedule@ == or_text(str_of(doc_at(m, seq!["spec"@, "schedule"@])), ""@));
        assert(active_jobs == active_jobs_of(m));
        assert(last_schedule_time.deep_view() == str_of(
            doc_at(m, seq!["status"@, "lastScheduleTime"@]),
        ));
        CronJob { manifest, namespace, schedule, suspend, active_jobs, last_schedule_time }
    }
}

impl ResourceV2 for CronJob {
    open spec fn describe(&self) -> SnapshotView {
        cronjob_view(self.manifest_view())
    }

    fn snapshot(&self) -> (r: ResourceSnapshot) {
        proof {
            use_type_invariant(self);
        }
        let m = &self.manifest;
        let mut s = base_snapshot(m, "CronJob", &self.namespace);
        s.health_status = if self.suspend {
            HealthStatus::Warning
        } else {
            HealthStatus::Healthy
        };
        s.conditions = conditions_of(m);
        if self.suspend {
            push_text(&mut s.warnings, String::from_str("CronJob is suspended"));
        }
        let word = if self.suspend {
            "Suspended"
        } else if self.active_jobs > 0 {
            "Active"
        } else {
            "Scheduled"
        };
        let mut summary = join3("CronJob ", m.name.as_str(), " - Status: ");
        summary.append(word);
        summary.append(", Schedule: ");
        summary.append(self.schedule.as_str());
        s.summary = Some(summary);
        push_field(&mut s.key_fields, "schedule", copy_string(&self.schedule));
        push_field(&mut s.key_fields, "suspend", bool_to_text(self.suspend));
        push_field(&mut s.key_fields, "active_jobs", i64_to_text(self.active_jobs));
        match &self.last_schedule_time {
            Some(t) => push_field(&mut s.key_fields, "last_schedule_time", copy_string(t)),
            None => {},
        }
        s.owner_references = owner_references_of(m);
        s.relationships = workload_dependency_relationships(m);
        proof {
            let v = cronjob_view(m@);
            assert(s@.warnings =~= v.warnings);
            assert(s@.errors =~= v.errors);
            assert(s@.key_fields =~= v.key_fields);
            assert(s@.summary == v.summary);
        }
        s
    }
}

// ---------------------------------------------------------------------------
// The first view of each kind
// ---------------------------------------------------------------------------

impl Resource for Deployment {
    open spec fn failing(&self) -> bool {
        int_or(self.manifest_view(), "status"@, "availableReplicas"@, 0) < int_or(self.manifest_view(), "spec"@, "replicas"@, 1) || int_or(self.manifest_view(), "status"@, "unavailableReplicas"@, 0) > 0
    }

    open spec fn warned(&self) -> bool {
        int_or(self.manifest_view(), "status"@, "readyReplicas"@, 0) < int_or(self.manifest_view(), "spec"@, "replicas"@, 1) && int_or(self.manifest_view(), "status"@, "availableReplicas"@, 0) > 0
    }

    open spec fn flagged(&self) -> Seq<Seq<char>> {
        Seq::empty()
    }

    fn is_error(&self) -> (r: bool) {
        int_field(&self.manifest, "status", "availableReplicas", 0) < int_field(&self.manifest, "spec", "replicas", 1) || int_field(&self.manifest, "status", "unavailableReplicas", 0) > 0
    }

    fn is_warning(&self) -> (r: bool) {
        int_field(&self.manifest, "status", "readyReplicas", 0) < int_field(&self.manifest, "spec", "replicas", 1) && int_field(&self.manifest, "status", "availableReplicas", 0) > 0
    }

    fn conditions(&self) -> (r: Vec<String>) {
        no_names()
    }
}

impl Resource for StatefulSet {
    open spec fn failing(&self) -> bool {
        int_or(self.manifest_view(), "status"@, "readyReplicas"@, 0) < int_or(self.manifest_view(), "spec"@, "replicas"@, 1)
    }

    open spec fn warned(&self) -> bool {
        int_or(self.manifest_view(), "status"@, "updatedReplicas"@, 0) < int_or(self.manifest_view(), "spec"@, "replicas"@, 1) && int_or(self.manifest_view(), "status"@, "readyReplicas"@, 0) > 0
    }

    open spec fn flagged(&self) -> Seq<Seq<char>> {
        Seq::empty()
    }

    fn is_error(&self) -> (r: bool) {
        int_field(&self.manifest, "status", "readyReplicas", 0) < int_field(&self.manifest, "spec", "replicas", 1)
    }

    fn is_warning(&self) -> (r: bool) {
        int_field(&self.manifest, "status", "updatedReplicas", 0) < int_field(&self.manifest, "spec", "replicas", 1) && int_field(&self.manifest, "status", "readyReplicas", 0) > 0
    }

    fn conditions(&self) -> (r: Vec<String>) {
        no_names()
    }
}

impl Resource for DaemonSet {
    open spec fn failing(&self) -> bool {
        int_or(self.manifest_view(), "status"@, "numberReady"@, 0) < int_or(self.manifest_view(), "status"@, "desiredNumberScheduled"@, 0) || int_or(self.manifest_view(), "status"@, "numberUnavailable"@, 0) > 0 || int_or(self.manifest_view(), "status"@, "numberMisscheduled"@, 0) > 0
    }

    open spec fn warned(&self) -> bool {
        int_or(self.manifest_view(), "status"@, "currentNumberScheduled"@, 0) < int_or(self.manifest_view(), "status"@, "desiredNumberScheduled"@, 0)
    }

    open spec fn flagged(&self) -> Seq<Seq<char>> {
        Seq::empty()
    }

    fn is_error(&self) -> (r: bool) {
        int_field(&self.manifest, "status", "numberReady", 0) < int_field(&self.manifest, "status", "desiredNumberScheduled", 0) || int_field(&self.manifest, "status", "numberUnavailable", 0) > 0 || int_field(&self.manifest, "status", "numberMisscheduled", 0) > 0
    }

    fn is_warning(&self) -> (r: bool) {
        int_field(&self.manifest, "status", "currentNumberScheduled", 0) < int_field(&self.manifest, "status", "desiredNumberScheduled", 0)
    }

    fn conditions(&self) -> (r: Vec<String>) {
        no_names()
    }
}

impl Resource for Job {
    open spec fn failing(&self) -> bool {
        int_or(self.manifest_view(), "status"@, "failed"@, 0) > 0 || manifest_has_condition_status(self.manifest_view(), "Failed"@, "True"@)
    }

    open spec fn warned(&self) -> bool {
        int_or(self.manifest_view(), "status"@, "active"@, 0) > 0 && int_or(self.manifest_view(), "status"@, "succeeded"@, 0) < int_or(self.manifest_view(), "spec"@, "completions"@, 1)
    }

    open spec fn flagged(&self) -> Seq<Seq<char>> {
        Seq::empty()
    }

    fn is_error(&self) -> (r: bool) {
        int_field(&self.manifest, "status", "failed", 0) > 0 || self.manifest.has_condition_status("Failed", "True")
    }

    fn is_warning(&self) -> (r: bool) {
        int_field(&self.manifest, "status", "active", 0) > 0 && int_field(&self.manifest, "status", "succeeded", 0) < int_field(&self.manifest, "spec", "completions", 1)
    }

    fn conditions(&self) -> (r: Vec<String>) {
        no_names()
    }
}

impl Resource for CronJob {
    open spec fn failing(&self) -> bool {
        false
    }

    open spec fn warned(&self) -> bool {
        bool_of(doc_at(self.manifest_view(), seq!["spec"@, "suspend"@])) == Some(true)
    }

    open spec fn flagged(&self) -> Seq<Seq<char>> {
        Seq::empty()
    }

    fn is_error(&self) -> (r: bool) {
        false
    }

    fn is_warning(&self) -> (r: bool) {
        match self.manifest.at(&keys2("spec", "suspend")) { Some(n) => n.as_bool() == Some(true), None => false }
    }

    fn conditions(&self) -> (r: Vec<String>) {
        no_names()
    }
}

} // verus!
