//! The machine API and the machine config operator: machines, machine sets,
//! health checks, control plane machine sets, machine config pools,
//! machine configs and the machine configuration.
use crate::kinds::cluster::bool_text;
use crate::kinds::{
    base_snapshot, base_view, condition_views, conditions_of, field_if, int_or, keys2, keys3,
    msg_if, owner_reference_views, owner_references_of, push_field, push_field_if, push_text,
    ratio, ratio_text, text_at, text_of,
};
use crate::manifest::{doc_at, manifest_has_condition_status, metadata_str, Manifest, ManifestView};
use crate::resources::{
    copy_string, join2, join3, or_text, str_eq, HealthStatus, ResourceSnapshot, ResourceV2,
    SnapshotView,
};
use crate::text::{bool_to_text, decimal, i64_to_text};
use crate::yaml::{i64_of, key_views, YamlValue, YamlView};
use crate::resources::Resource;
use crate::kinds::{no_names, two_names};
use vstd::prelude::*;

verus! {

/// A value that is missing, or the bad value: what `is_badvalue` tells.
pub open spec fn is_bad(v: Option<YamlView>) -> bool {
    match v {
        Some(YamlView::BadValue) => true,
        Some(_) => false,
        None => true,
    }
}

/// An optional integer in decimal.
pub open spec fn int_text(o: Option<i64>) -> Option<Seq<char>> {
    match o {
        Some(i) => Some(decimal(i as int)),
        None => None,
    }
}

/// The integer at a path in decimal, if there is one.
pub open spec fn int_text_of(m: ManifestView, keys: Seq<Seq<char>>) -> Option<Seq<char>> {
    int_text(i64_of(doc_at(m, keys)))
}

/// The integer at a path in decimal, if there is one.
fn int_text_at(m: &Manifest, keys: &[&str]) -> (r: Option<String>)
    ensures
        r.deep_view() == int_text_of(m@, key_views(keys@)),
{
    match m.at(keys) {
        Some(n) => match n.as_i64() {
            Some(i) => Some(i64_to_text(i)),
            None => None,
        },
        None => None,
    }
}

/// Whether the value at a path is missing or bad.
fn bad_at(m: &Manifest, keys: &[&str]) -> (r: bool)
    ensures
        r == is_bad(doc_at(m@, key_views(keys@))),
{
    match m.at(keys) {
        Some(n) => match n {
            YamlValue::BadValue => true,
            _ => false,
        },
        None => true,
    }
}

// ---------------------------------------------------------------------------
// Machine
// ---------------------------------------------------------------------------
/// The phase of a machine (`Unknown` when unset).
pub open spec fn machine_phase(m: ManifestView) -> Seq<char> {
    or_text(text_of(m, seq!["status"@, "phase"@]), "Unknown"@)
}

/// A machine is running when its phase is `Running`.
pub open spec fn machine_running(m: ManifestView) -> bool {
    machine_phase(m) == "Running"@
}

/// What a machine yields.
pub open spec fn machine_view(m: ManifestView) -> SnapshotView {
    let running = machine_running(m);
    SnapshotView {
        health_status: if running {
            HealthStatus::Healthy
        } else {
            HealthStatus::Error
        },
        conditions: condition_views(m),
        errors: msg_if(!running, "Machine is not Running"@),
        summary: Some("Machine "@ + m.name + " - Phase: "@ + machine_phase(m)),
        key_fields: seq![("phase"@, machine_phase(m))] + field_if(
            "provider_id"@,
            text_of(m, seq!["spec"@, "providerID"@]),
        ),
        owner_references: owner_reference_views(m),
        ..base_view(m, "Machine"@, metadata_str(m, "namespace"@))
    }
}

/// The phase of a machine.
fn machine_phase_of(m: &Manifest) -> (r: String)
    ensures
        r@ == machine_phase(m@),
{
    match text_at(m, &keys2("status", "phase")) {
        Some(p) => p,
        None => String::from_str("Unknown"),
    }
}

/// Whether a machine's phase is `Running`.
pub fn is_running_phase(manifest: &Manifest) -> (r: bool)
    ensures
        r == machine_running(manifest@),
{
    let phase = machine_phase_of(manifest);
    str_eq(phase.as_str(), "Running")
}

/// A machine.
#[derive(Debug)]
pub struct Machine {
    manifest: Manifest,
}

impl Machine {
    /// The manifest the machine was read from.
    pub closed spec fn manifest_view(self) -> ManifestView {
        self.manifest@
    }

    /// Reads a machine from its manifest.
    pub fn from(manifest: Manifest) -> (r: Machine)
        ensures
            r.manifest_view() == manifest@,
    {
        Machine { manifest }
    }
}

impl ResourceV2 for Machine {
    open spec fn describe(&self) -> SnapshotView {
        machine_view(self.manifest_view())
    }

    fn snapshot(&self) -> (r: ResourceSnapshot) {
        let m = &self.manifest;
        let namespace = m.namespace();
        let phase = machine_phase_of(m);
        let running = str_eq(phase.as_str(), "Running");
        let mut s = base_snapshot(m, "Machine", &namespace);
        s.health_status = if running {
            HealthStatus::Healthy
        } else {
            HealthStatus::Error
        };
        s.conditions = conditions_of(m);
        if !running {
            push_text(&mut s.errors, String::from_str("Machine is not Running"));
        }
        let mut summary = join3("Machine ", m.name.as_str(), " - Phase: ");
        summary.append(phase.as_str());
        s.summary = Some(summary);
        push_field(&mut s.key_fields, "phase", phase);
        push_field_if(&mut s.key_fields, "provider_id", &text_at(m, &keys2("spec", "providerID")));
        s.owner_references = owner_references_of(m);
        proof {
            let v = machine_view(m@);
            assert(s@.errors =~= v.errors);
            assert(s@.key_fields =~= v.key_fields);
        }
        s
    }
}

// ---------------------------------------------------------------------------
// MachineSet
// ---------------------------------------------------------------------------
/// A machine set is scaled by the autoscaler when it carries either of the
/// autoscaler's size annotations.
pub open spec fn machineset_autoscaling(m: ManifestView) -> bool {
    !(is_bad(
        doc_at(
            m,
            seq![
                "metadata"@,
                "annotations"@,
                "machine.openshift.io/cluster-api-autoscaler-node-group-min-size"@,
            ],
        ),
    ) && is_bad(
        doc_at(
            m,
            seq![
                "metadata"@,
                "annotations"@,
                "machine.openshift.io/cluster-api-autoscaler-node-group-max-size"@,
            ],
        ),
    ))
}

/// The replica count of a machine set's status as text: `Not Found` when
/// missing, `Unknown` when not an integer.
pub open spec fn machineset_replicas(m: ManifestView) -> Seq<char> {
    let v = doc_at(m, seq!["status"@, "replicas"@]);
    if is_bad(v) {
        "Not Found"@
    } else {
        match i64_of(v) {
            Some(i) => decimal(i as int),
            None => "Unknown"@,
        }
    }
}

/// What a machine set yields.
pub open spec fn machineset_view(m: ManifestView) -> SnapshotView {
    let autoscaling = machineset_autoscaling(m);
    SnapshotView {
        health_status: HealthStatus::Healthy,
        conditions: condition_views(m),
        warnings: msg_if(autoscaling, "MachineSet is managed by autoscaling annotations"@),
        summary: Some("MachineSet "@ + m.name + " - Replicas: "@ + machineset_replicas(m)),
        key_fields: seq![
            ("replicas"@, machineset_replicas(m)),
            ("autoscaling"@, bool_text(autoscaling)),
        ],
        owner_references: owner_reference_views(m),
        ..base_view(m, "MachineSet"@, metadata_str(m, "namespace"@))
    }
}

/// Whether a machine set carries the autoscaler's size annotations.
pub fn has_autoscaling_annotations(manifest: &Manifest) -> (r: bool)
    ensures
        r == machineset_autoscaling(manifest@),
{
    let min = keys3(
        "metadata",
        "annotations",
        "machine.openshift.io/cluster-api-autoscaler-node-group-min-size",
    );
    let max = keys3(
        "metadata",
        "annotations",
        "machine.openshift.io/cluster-api-autoscaler-node-group-max-size",
    );
    !(bad_at(manifest, &min) && bad_at(manifest, &max))
}

/// The replica count of a machine set's status as text.
pub fn status_replicas(manifest: &Manifest) -> (r: String)
    ensures
        r@ == machineset_replicas(manifest@),
{
    let path = keys2("status", "replicas");
    if bad_at(manifest, &path) {
        String::from_str("Not Found")
    } else {
        match manifest.at(&path) {
            Some(n) => match n.as_i64() {
                Some(i) => i64_to_text(i),
                None => String::from_str("Unknown"),
            },
            None => String::from_str("Unknown"),
        }
    }
}

/// A machine set.
#[derive(Debug)]
pub struct MachineSet {
    manifest: Manifest,
    autoscaling: bool,
    replicas: String,
}

impl MachineSet {
    #[verifier::type_invariant]
    spec fn wf(self) -> bool {
        &&& self.autoscaling == machineset_autoscaling(self.manifest@)
        &&& self.replicas@ == machineset_replicas(self.manifest@)
    }

    /// The manifest the machine set was read from.
    pub closed spec fn manifest_view(self) -> ManifestView {
        self.manifest@
    }

    /// Reads a machine set from its manifest.
    pub fn from(manifest: Manifest) -> (r: MachineSet)
        ensures
            r.manifest_view() == manifest@,
    {
        let autoscaling = has_autoscaling_annotations(&manifest);
        let replicas = status_replicas(&manifest);
        MachineSet { manifest, autoscaling, replicas }
    }

    /// Whether the machine set is scaled by the autoscaler.
    pub fn is_autoscaling(&self) -> (r: bool)
        ensures
            r == machineset_autoscaling(self.manifest_view()),
    {
        proof {
            use_type_invariant(self);
        }
        self.autoscaling
    }

    /// The replica count of the machine set's status as text.
    pub fn replicas(&self) -> (r: &String)
        ensures
            r@ == machineset_replicas(self.manifest_view()),
    {
        proof {
            use_type_invariant(self);
        }
        &self.replicas
    }
}

impl ResourceV2 for MachineSet {
    open spec fn describe(&self) -> SnapshotView {
        machineset_view(self.manifest_view())
    }

    fn snapshot(&self) -> (r: ResourceSnapshot) {
        proof {
            use_type_invariant(self);
        }
        let m = &self.manifest;
        let namespace = m.namespace();
        let mut s = base_snapshot(m, "MachineSet", &namespace);
        s.health_status = HealthStatus::Healthy;
        s.conditions = conditions_of(m);
        if self.autoscaling {
            push_text(
                &mut s.warnings,
                String::from_str("MachineSet is managed by autoscaling annotations"),
            );
        }
        let mut summary = join3("MachineSet ", m.name.as_str(), " - Replicas: ");
        summary.append(self.replicas.as_str());
        s.summary = Some(summary);
        push_field(&mut s.key_fields, "replicas", copy_string(&self.replicas));
        push_field(&mut s.key_fields, "autoscaling", bool_to_text(self.autoscaling));
        s.owner_references = owner_references_of(m);
        proof {
            let v = machineset_view(m@);
            assert(s@.warnings =~= v.warnings);
            assert(s@.key_fields =~= v.key_fields);
        }
        s
    }
}

// ---------------------------------------------------------------------------
// MachineHealthCheck
// ---------------------------------------------------------------------------
/// What a machine health check yields.
pub open spec fn machinehealthcheck_view(m: ManifestView) -> SnapshotView {
    let allowed = manifest_has_condition_status(m, "RemediationAllowed"@, "True"@);
    SnapshotView {
        health_status: if allowed {
            HealthStatus::Healthy
        } else {
            HealthStatus::Error
        },
        conditions: condition_views(m),
        errors: msg_if(!allowed, "MachineHealthCheck remediation is not allowed"@),
        summary: Some(
            "MachineHealthCheck "@ + m.name + ratio_text(
                " - "@,
                int_or(m, "status"@, "currentHealthy"@, 0),
                int_or(m, "status"@, "expectedMachines"@, 0),
                " healthy"@,
            ),
        ),
        key_fields: seq![("remediation_allowed"@, bool_text(allowed))] + field_if(
            "current_healthy"@,
            int_text_of(m, seq!["status"@, "currentHealthy"@]),
        ) + field_if("expected_machines"@, int_text_of(m, seq!["status"@, "expectedMachines"@]))
            + field_if(
            "remediations_allowed"@,
            int_text_of(m, seq!["status"@, "remediationsAllowed"@]),
        ) + field_if("max_unhealthy"@, text_of(m, seq!["spec"@, "maxUnhealthy"@])),
        owner_references: owner_reference_views(m),
        ..base_view(m, "MachineHealthCheck"@, metadata_str(m, "namespace"@))
    }
}

/// A machine health check.
#[derive(Debug)]
pub struct MachineHealthCheck {
    manifest: Manifest,
}

impl MachineHealthCheck {
    /// The manifest the machine health check was read from.
    pub closed spec fn manifest_view(self) -> ManifestView {
        self.manifest@
    }

    /// Reads a machine health check from its manifest.
    pub fn from(manifest: Manifest) -> (r: MachineHealthCheck)
        ensures
            r.manifest_view() == manifest@,
    {
        MachineHealthCheck { manifest }
    }
}

/// The key fields of a machine health check.
fn machinehealthcheck_fields(m: &Manifest, allowed: bool) -> (r: Vec<(String, String)>)
    requires
        allowed == manifest_has_condition_status(m@, "RemediationAllowed"@, "True"@),
    ensures
        r.deep_view() == machinehealthcheck_view(m@).key_fields,
{
    let mut f: Vec<(String, String)> = Vec::new();
    push_field(&mut f, "remediation_allowed", bool_to_text(allowed));
    push_field_if(&mut f, "current_healthy", &int_text_at(m, &keys2("status", "currentHealthy")));
    push_field_if(
        &mut f,
        "expected_machines",
        &int_text_at(m, &keys2("status", "expectedMachines")),
    );
    push_field_if(
        &mut f,
        "remediations_allowed",
        &int_text_at(m, &keys2("status", "remediationsAllowed")),
    );
    push_field_if(&mut f, "max_unhealthy", &text_at(m, &keys2("spec", "maxUnhealthy")));
    assert(f.deep_view() =~= machinehealthcheck_view(m@).key_fields);
    f
}

impl ResourceV2 for MachineHealthCheck {
    open spec fn describe(&self) -> SnapshotView {
        machinehealthcheck_view(self.manifest_view())
    }

    fn snapshot(&self) -> (r: ResourceSnapshot) {
        let m = &self.manifest;
        let namespace = m.namespace();
        let allowed = m.has_condition_status("RemediationAllowed", "True");
        let mut s = base_snapshot(m, "MachineHealthCheck", &namespace);
        s.health_status = if allowed {
            HealthStatus::Healthy
        } else {
            HealthStatus::Error
        };
        s.conditions = conditions_of(m);
        if !allowed {
            push_text(&mut s.errors, String::from_str("MachineHealthCheck remediation is not allowed"));
        }
        let healthy = crate::kinds::int_field(m, "status", "currentHealthy", 0);
        let expected = crate::kinds::int_field(m, "status", "expectedMachines", 0);
        let mut summary = join2("MachineHealthCheck ", m.name.as_str());
        summary.append(ratio(" - ", healthy, expected, " healthy").as_str());
        s.summary = Some(summary);
        s.key_fields = machinehealthcheck_fields(m, allowed);
        s.owner_references = owner_references_of(m);
        proof {
            let v = machinehealthcheck_view(m@);
            assert(s@.errors =~= v.errors);
        }
        s
    }
}

// ---------------------------------------------------------------------------
// ControlPlaneMachineSet
// ---------------------------------------------------------------------------
/// What a control plane machine set yields.
pub open spec fn controlplanemachineset_view(m: ManifestView) -> SnapshotView {
    let ready = manifest_has_condition_status(m, "Available"@, "True"@);
    SnapshotView {
        health_status: if ready {
            HealthStatus::Healthy
        } else {
            HealthStatus::Error
        },
        conditions: condition_views(m),
        errors: msg_if(!ready, "ControlPlaneMachineSet is not Available"@),
        summary: Some(
            "ControlPlaneMachineSet "@ + m.name + " - "@ + (if ready {
                "Available"@
            } else {
                "Unavailable"@
            }),
        ),
        key_fields: seq![("ready"@, bool_text(ready))],
        ..base_view(m, "ControlPlaneMachineSet"@, None)
    }
}

/// A control plane machine set.
#[derive(Debug)]
pub struct ControlPlaneMachineSet {
    manifest: Manifest,
}

impl ControlPlaneMachineSet {
    /// The manifest the control plane machine set was read from.
    pub closed spec fn manifest_view(self) -> ManifestView {
        self.manifest@
    }

    /// Reads a control plane machine set from its manifest.
    pub fn from(manifest: Manifest) -> (r: ControlPlaneMachineSet)
        ensures
            r.manifest_view() == manifest@,
    {
        ControlPlaneMachineSet { manifest }
    }
}

impl ResourceV2 for ControlPlaneMachineSet {
    open spec fn describe(&self) -> SnapshotView {
        controlplanemachineset_view(self.manifest_view())
    }

    fn snapshot(&self) -> (r: ResourceSnapshot) {
        let m = &self.manifest;
        let ready = m.has_condition_status("Available", "True");
        let mut s = base_snapshot(m, "ControlPlaneMachineSet", &None);
        s.health_status = if ready {
            HealthStatus::Healthy
        } else {
            HealthStatus::Error
        };
        s.conditions = conditions_of(m);
        if !ready {
            push_text(&mut s.errors, String::from_str("ControlPlaneMachineSet is not Available"));
        }
        let mut summary = join3("ControlPlaneMachineSet ", m.name.as_str(), " - ");
        summary.append(if ready {
            "Available"
        } else {
            "Unavailable"
        });
        s.summary = Some(summary);
        push_field(&mut s.key_fields, "ready", bool_to_text(ready));
        proof {
            let v = controlplanemachineset_view(m@);
            assert(s@.errors =~= v.errors);
            assert(s@.key_fields =~= v.key_fields);
        }
        s
    }
}

// ---------------------------------------------------------------------------
// MachineConfigPool
// ---------------------------------------------------------------------------
/// What a machine config pool yields.
pub open spec fn machineconfigpool_view(m: ManifestView) -> SnapshotView {
    let degraded = manifest_has_condition_status(m, "Degraded"@, "True"@);
    let updating = manifest_has_condition_status(m, "Updating"@, "True"@);
    SnapshotView {
        health_status: if degraded {
            HealthStatus::Error
        } else if updating {
            HealthStatus::Warning
        } else {
            HealthStatus::Healthy
        },
        conditions: condition_views(m),
        warnings: msg_if(updating, "MachineConfigPool is updating"@),
        errors: msg_if(degraded, "MachineConfigPool is degraded"@),
        summary: Some(
            "MachineConfigPool "@ + m.name + " - "@ + (if degraded {
                "Degraded"@
            } else if updating {
                "Updating"@
            } else {
                "Healthy"@
            }),
        ),
        key_fields: seq![("degraded"@, bool_text(degraded)), ("updating"@, bool_text(updating))]
            + field_if("machine_count"@, int_text_of(m, seq!["status"@, "machineCount"@]))
            + field_if(
            "ready_machine_count"@,
            int_text_of(m, seq!["status"@, "readyMachineCount"@]),
        ),
        ..base_view(m, "MachineConfigPool"@, None)
    }
}

/// A machine config pool.
#[derive(Debug)]
pub struct MachineConfigPool {
    manifest: Manifest,
}

impl MachineConfigPool {
    /// The manifest the machine config pool was read from.
    pub closed spec fn manifest_view(self) -> ManifestView {
        self.manifest@
    }

    /// Reads a machine config pool from its manifest.
    pub fn from(manifest: Manifest) -> (r: MachineConfigPool)
        ensures
            r.manifest_view() == manifest@,
    {
        MachineConfigPool { manifest }
    }
}

impl ResourceV2 for MachineConfigPool {
    open spec fn describe(&self) -> SnapshotView {
        machineconfigpool_view(self.manifest_view())
    }

    fn snapshot(&self) -> (r: ResourceSnapshot) {
        let m = &self.manifest;
        let degraded = m.has_condition_status("Degraded", "True");
        let updating = m.has_condition_status("Updating", "True");
        let mut s = base_snapshot(m, "MachineConfigPool", &None);
        s.health_status = if degraded {
            HealthStatus::Error
        } else if updating {
            HealthStatus::Warning
        } else {
            HealthStatus::Healthy
        };
        s.conditions = conditions_of(m);
        if updating {
            push_text(&mut s.warnings, String::from_str("MachineConfigPool is updating"));
        }
        if degraded {
            push_text(&mut s.errors, String::from_str("MachineConfigPool is degraded"));
        }
        let mut summary = join3("MachineConfigPool ", m.name.as_str(), " - ");
        summary.append(if degraded {
            "Degraded"
        } else if updating {
            "Updating"
        } else {
            "Healthy"
        });
        s.summary = Some(summary);
        push_field(&mut s.key_fields, "degraded", bool_to_text(degraded));
        push_field(&mut s.key_fields, "updating", bool_to_text(updating));
        push_field_if(&mut s.key_fields, "machine_count", &int_text_at(m, &keys2("status", "machineCount")));
        push_field_if(
            &mut s.key_fields,
            "ready_machine_count",
            &int_text_at(m, &keys2("status", "readyMachineCount")),
        );
        proof {
            let v = machineconfigpool_view(m@);
            assert(s@.warnings =~= v.warnings);
            assert(s@.errors =~= v.errors);
            assert(s@.key_fields =~= v.key_fields);
        }
        s
    }
}

// ---------------------------------------------------------------------------
// MachineConfig
// ---------------------------------------------------------------------------
/// What a machine config yields.
pub open spec fn machineconfig_view(m: ManifestView) -> SnapshotView {
    SnapshotView {
        health_status: HealthStatus::Healthy,
        conditions: condition_views(m),
        summary: Some("MachineConfig "@ + m.name),
        key_fields: field_if("os_image_url"@, text_of(m, seq!["spec"@, "osImageURL"@])),
        ..base_view(m, "MachineConfig"@, None)
    }
}

/// A machine config.
#[derive(Debug)]
pub struct MachineConfig {
    manifest: Manifest,
}

impl MachineConfig {
    /// The manifest the machine config was read from.
    pub closed spec fn manifest_view(self) -> ManifestView {
        self.manifest@
    }

    /// Reads a machine config from its manifest.
    pub fn from(manifest: Manifest) -> (r: MachineConfig)
        ensures
            r.manifest_view() == manifest@,
    {
        MachineConfig { manifest }
    }

    /// The name of the machine config.
    pub fn name(&self) -> (r: &String)
        ensures
            r@ == self.manifest_view().name,
    {
        &self.manifest.name
    }
}

impl ResourceV2 for MachineConfig {
    open spec fn describe(&self) -> SnapshotView {
        machineconfig_view(self.manifest_view())
    }

    fn snapshot(&self) -> (r: ResourceSnapshot) {
        let m = &self.manifest;
        let mut s = base_snapshot(m, "MachineConfig", &None);
        s.health_status = HealthStatus::Healthy;
        s.conditions = conditions_of(m);
        s.summary = Some(join2("MachineConfig ", m.name.as_str()));
        push_field_if(&mut s.key_fields, "os_image_url", &text_at(m, &keys2("spec", "osImageURL")));
        proof {
            let v = machineconfig_view(m@);
            assert(s@.key_fields =~= v.key_fields);
        }
        s
    }
}

// ---------------------------------------------------------------------------
// MachineConfiguration
// ---------------------------------------------------------------------------
/// What the machine configuration yields.
pub open spec fn machineconfiguration_view(m: ManifestView) -> SnapshotView {
    let degraded = manifest_has_condition_status(m, "BootImageUpdateDegraded"@, "True"@);
    let progressing = manifest_has_condition_status(m, "BootImageUpdateProgressing"@, "True"@);
    SnapshotView {
        health_status: if degraded {
            HealthStatus::Error
        } else if progressing {
            HealthStatus::Warning
        } else {
            HealthStatus::Healthy
        },
        conditions: condition_views(m),
        warnings: msg_if(progressing, "Boot image update is progressing"@),
        errors: msg_if(degraded, "Boot image update is degraded"@),
        summary: Some("MachineConfiguration "@ + m.name),
        key_fields: seq![
            ("boot_image_update_degraded"@, bool_text(degraded)),
            ("boot_image_update_progressing"@, bool_text(progressing)),
        ],
        ..base_view(m, "MachineConfiguration"@, None)
    }
}

/// The machine configuration of the machine config operator.
#[derive(Debug)]
pub struct MachineConfiguration {
    manifest: Manifest,
}

impl MachineConfiguration {
    /// The manifest the machine configuration was read from.
    pub closed spec fn manifest_view(self) -> ManifestView {
        self.manifest@
    }

    /// Reads the machine configuration from its manifest.
    pub fn from(manifest: Manifest) -> (r: MachineConfiguration)
        ensures
            r.manifest_view() == manifest@,
    {
        MachineConfiguration { manifest }
    }
}

impl ResourceV2 for MachineConfiguration {
    open spec fn describe(&self) -> SnapshotView {
        machineconfiguration_view(self.manifest_view())
    }

    fn snapshot(&self) -> (r: ResourceSnapshot) {
        let m = &self.manifest;
        let degraded = m.has_condition_status("BootImageUpdateDegraded", "True");
        let progressing = m.has_condition_status("BootImageUpdateProgressing", "True");
        let mut s = base_snapshot(m, "MachineConfiguration", &None);
        s.health_status = if degraded {
            HealthStatus::Error
        } else if progressing {
            HealthStatus::Warning
        } else {
            HealthStatus::Healthy
        };
        s.conditions = conditions_of(m);
        if progressing {
            push_text(&mut s.warnings, String::from_str("Boot image update is progressing"));
        }
        if degraded {
            push_text(&mut s.errors, String::from_str("Boot image update is degraded"));
        }
        s.summary = Some(join2("MachineConfiguration ", m.name.as_str()));
        push_field(&mut s.key_fields, "boot_image_update_degraded", bool_to_text(degraded));
        push_field(&mut s.key_fields, "boot_image_update_progressing", bool_to_text(progressing));
        proof {
            let v = machineconfiguration_view(m@);
            assert(s@.warnings =~= v.warnings);
            assert(s@.errors =~= v.errors);
            assert(s@.key_fields =~= v.key_fields);
        }
        s
    }
}

// ---------------------------------------------------------------------------
// The first view of each kind
// ---------------------------------------------------------------------------

impl Resource for Machine {
    open spec fn failing(&self) -> bool {
        !machine_running(self.manifest_view())
    }

    open spec fn warned(&self) -> bool {
        false
    }

    open spec fn flagged(&self) -> Seq<Seq<char>> {
        Seq::empty()
    }

    fn is_error(&self) -> (r: bool) {
        !is_running_phase(&self.manifest)
    }

    fn is_warning(&self) -> (r: bool) {
        false
    }

    fn conditions(&self) -> (r: Vec<String>) {
        no_names()
    }
}

impl Resource for MachineSet {
    open spec fn failing(&self) -> bool {
        false
    }

    open spec fn warned(&self) -> bool {
        false
    }

    open spec fn flagged(&self) -> Seq<Seq<char>> {
        Seq::empty()
    }

    fn is_error(&self) -> (r: bool) {
        false
    }

    fn is_warning(&self) -> (r: bool) {
        false
    }

    fn conditions(&self) -> (r: Vec<String>) {
        no_names()
    }
}

impl Resource for MachineHealthCheck {
    open spec fn failing(&self) -> bool {
        !manifest_has_condition_status(self.manifest_view(), "RemediationAllowed"@, "True"@)
    }

    open spec fn warned(&self) -> bool {
        false
    }

    open spec fn flagged(&self) -> Seq<Seq<char>> {
        Seq::empty()
    }

    fn is_error(&self) -> (r: bool) {
        !self.manifest.has_condition_status("RemediationAllowed", "True")
    }

    fn is_warning(&self) -> (r: bool) {
        false
    }

    fn conditions(&self) -> (r: Vec<String>) {
        no_names()
    }
}

impl Resource for ControlPlaneMachineSet {
    open spec fn failing(&self) -> bool {
        !manifest_has_condition_status(self.manifest_view(), "Available"@, "True"@)
    }

    open spec fn warned(&self) -> bool {
        false
    }

    open spec fn flagged(&self) -> Seq<Seq<char>> {
        Seq::empty()
    }

    fn is_error(&self) -> (r: bool) {
        !self.manifest.has_condition_status("Available", "True")
    }

    fn is_warning(&self) -> (r: bool) {
        false
    }

    fn conditions(&self) -> (r: Vec<String>) {
        no_names()
    }
}

impl Resource for MachineConfigPool {
    open spec fn failing(&self) -> bool {
        manifest_has_condition_status(self.manifest_view(), "Degraded"@, "True"@)
    }

    open spec fn warned(&self) -> bool {
        manifest_has_condition_status(self.manifest_view(), "Updating"@, "True"@)
    }

    open spec fn flagged(&self) -> Seq<Seq<char>> {
        msg_if(manifest_has_condition_status(self.manifest_view(), "Degraded"@, "True"@), "Degraded"@) + msg_if(manifest_has_condition_status(self.manifest_view(), "Updating"@, "True"@), "Updating"@)
    }

    fn is_error(&self) -> (r: bool) {
        self.manifest.has_condition_status("Degraded", "True")
    }

    fn is_warning(&self) -> (r: bool) {
        self.manifest.has_condition_status("Updating", "True")
    }

    fn conditions(&self) -> (r: Vec<String>) {
        two_names(self.manifest.has_condition_status("Degraded", "True"), "Degraded", self.manifest.has_condition_status("Updating", "True"), "Updating")
    }
}

impl Resource for MachineConfig {
    open spec fn failing(&self) -> bool {
        false
    }

    open spec fn warned(&self) -> bool {
        false
    }

    open spec fn flagged(&self) -> Seq<Seq<char>> {
        Seq::empty()
    }

    fn is_error(&self) -> (r: bool) {
        false
    }

    fn is_warning(&self) -> (r: bool) {
        false
    }

    fn conditions(&self) -> (r: Vec<String>) {
        no_names()
    }
}

impl Resource for MachineConfiguration {
    open spec fn failing(&self) -> bool {
        manifest_has_condition_status(self.manifest_view(), "BootImageUpdateDegraded"@, "True"@)
    }

    open spec fn warned(&self) -> bool {
        manifest_has_condition_status(self.manifest_view(), "BootImageUpdateProgressing"@, "True"@)
    }

    open spec fn flagged(&self) -> Seq<Seq<char>> {
        msg_if(manifest_has_condition_status(self.manifest_view(), "BootImageUpdateDegraded"@, "True"@), "BootImageUpdateDegraded"@) + msg_if(manifest_has_condition_status(self.manifest_view(), "BootImageUpdateProgressing"@, "True"@), "BootImageUpdateProgressing"@)
    }

    fn is_error(&self) -> (r: bool) {
        self.manifest.has_condition_status("BootImageUpdateDegraded", "True")
    }

    fn is_warning(&self) -> (r: bool) {
        self.manifest.has_condition_status("BootImageUpdateProgressing", "True")
    }

    fn conditions(&self) -> (r: Vec<String>) {
        two_names(self.manifest.has_condition_status("BootImageUpdateDegraded", "True"), "BootImageUpdateDegraded", self.manifest.has_condition_status("BootImageUpdateProgressing", "True"), "BootImageUpdateProgressing")
    }
}

} // verus!
