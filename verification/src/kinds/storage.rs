//! Storage resources: persistent volume claims and volumes, storage
//! classes and volume attachments.
use crate::kinds::cluster::{bool_text, join_texts, joined};
use crate::kinds::{
    base_snapshot, base_view, condition_views, conditions_of, field_if, flag_at, flag_of, keys1,
    keys2, keys3, list_at, list_of, msg_if, push_field, push_field_if, push_text, text_at,
    text_at_or, text_of,
};
use crate::manifest::{metadata_str, Manifest, ManifestView};
use crate::resources::{
    copy_opt_string, copy_string, join2, join3, or_text, str_eq, text_or, HealthStatus,
    ResourceSnapshot, ResourceV2, SnapshotView,
};
use crate::text::bool_to_text;
use crate::yaml::{items_view, load_documents, yaml_documents, YamlValue, YamlView};
use crate::resources::Resource;
use crate::kinds::{no_names, two_names};
use vstd::prelude::*;

verus! {

// ---------------------------------------------------------------------------
// PersistentVolumeClaim
// ---------------------------------------------------------------------------
/// What a claim yields, given what was read of it.
pub open spec fn pvc_view(
    m: ManifestView,
    namespace: Option<Seq<char>>,
    phase: Seq<char>,
    volume_name: Option<Seq<char>>,
    storage_class: Option<Seq<char>>,
    capacity: Option<Seq<char>>,
    access_modes: Seq<Seq<char>>,
) -> SnapshotView {
    SnapshotView {
        health_status: if phase == "Bound"@ {
            HealthStatus::Healthy
        } else if phase == "Pending"@ {
            HealthStatus::Warning
        } else if phase == "Lost"@ {
            HealthStatus::Error
        } else {
            HealthStatus::Unknown
        },
        conditions: condition_views(m),
        warnings: msg_if(phase == "Pending"@, "PVC is pending - waiting for volume provisioning"@),
        errors: msg_if(phase == "Lost"@, "PVC is in Lost state - bound volume no longer exists"@),
        summary: Some(
            "PVC "@ + m.name + " - Phase: "@ + phase + " - Storage: "@ + or_text(capacity, "N/A"@),
        ),
        key_fields: seq![("phase"@, phase)] + field_if("volume_name"@, volume_name) + field_if(
            "storage_class"@,
            storage_class,
        ) + field_if("capacity"@, capacity) + seq![("access_modes"@, joined(access_modes, ", "@))],
        ..base_view(m, "PersistentVolumeClaim"@, namespace)
    }
}

/// A persistent volume claim.
#[derive(Debug)]
pub struct PersistentVolumeClaim {
    manifest: Manifest,
    namespace: Option<String>,
    phase: String,
    volume_name: Option<String>,
    storage_class: Option<String>,
    capacity: Option<String>,
    access_modes: Vec<String>,
}

impl PersistentVolumeClaim {
    /// The manifest the claim was read from.
    pub closed spec fn manifest_view(self) -> ManifestView {
        self.manifest@
    }

    /// What was read of the claim: namespace, phase, volume, storage
    /// class, capacity and access modes.
    pub closed spec fn parts(self) -> (
        Option<Seq<char>>,
        Seq<char>,
        Option<Seq<char>>,
        Option<Seq<char>>,
        Option<Seq<char>>,
        Seq<Seq<char>>,
    ) {
        (
            self.namespace.deep_view(),
            self.phase@,
            self.volume_name.deep_view(),
            self.storage_class.deep_view(),
            self.capacity.deep_view(),
            self.access_modes.deep_view(),
        )
    }

    /// Reads a claim from its manifest.
    pub fn from(manifest: Manifest) -> (r: PersistentVolumeClaim)
        ensures
            r.manifest_view() == manifest@,
            r.parts() == (
                metadata_str(manifest@, "namespace"@),
                or_text(text_of(manifest@, seq!["status"@, "phase"@]), "Unknown"@),
                text_of(manifest@, seq!["spec"@, "volumeName"@]),
                text_of(manifest@, seq!["spec"@, "storageClassName"@]),
                text_of(manifest@, seq!["status"@, "capacity"@, "storage"@]),
                list_of(manifest@, seq!["spec"@, "accessModes"@]),
            ),
    {
        let namespace = manifest.namespace();
        let phase = text_at_or(&manifest, &keys2("status", "phase"), "Unknown");
        let volume_name = text_at(&manifest, &keys2("spec", "volumeName"));
        let storage_class = text_at(&manifest, &keys2("spec", "storageClassName"));
        let capacity = text_at(&manifest, &keys3("status", "capacity", "storage"));
        let access_modes = list_at(&manifest, &keys2("spec", "accessModes"));
        PersistentVolumeClaim {
            manifest,
            namespace,
            phase,
            volume_name,
            storage_class,
            capacity,
            access_modes,
        }
    }

    /// The claim's name.
    pub fn name(&self) -> (r: &String)
        ensures
            r@ == self.manifest_view().name,
    {
        &self.manifest.name
    }

    /// The claim's namespace.
    pub fn namespace(&self) -> (r: &Option<String>)
        ensures
            r.deep_view() == self.parts().0,
    {
        &self.namespace
    }

    /// A claim known only from the volume bound to it: a Bound claim with
    /// a YAML text made up from the given values.
    pub fn synthetic_bound(
        name: String,
        namespace: String,
        volume_name: String,
        storage_class: Option<String>,
        capacity: Option<String>,
    ) -> (r: PersistentVolumeClaim)
        ensures
            r.manifest_view().name == name@,
            r.manifest_view().raw == synthetic_claim_text(
                name@,
                namespace@,
                volume_name@,
                storage_class.deep_view(),
                capacity.deep_view(),
            ).push('\n'),
            r.manifest_view().yaml == match yaml_documents(
                synthetic_claim_text(
                    name@,
                    namespace@,
                    volume_name@,
                    storage_class.deep_view(),
                    capacity.deep_view(),
                ),
            ) {
                Ok(docs) => if docs.len() > 0 {
                    Some(docs[0])
                } else {
                    None
                },
                Err(_) => None,
            },
            r.parts() == (
                Some(namespace@),
                "Bound"@,
                Some(volume_name@),
                storage_class.deep_view(),
                capacity.deep_view(),
                Seq::<Seq<char>>::empty(),
            ),
    {
        proof {
            reveal_strlit("");
            reveal_strlit("\n");
        }
        let ghost spec_text = synthetic_claim_text(
            name@,
            namespace@,
            volume_name@,
            storage_class.deep_view(),
            capacity.deep_view(),
        );
        let mut raw = join3("---\napiVersion: v1\nkind: PersistentVolumeClaim\nmetadata:\n  name: ", name.as_str(), "\n  namespace: ");
        raw.append(namespace.as_str());
        raw.append("\nspec:\n");
        match &storage_class {
            Some(sc) => {
                raw.append("  storageClassName: ");
                raw.append(sc.as_str());
                raw.append("\n");
            },
            None => {},
        }
        raw.append("  volumeName: ");
        raw.append(volume_name.as_str());
        raw.append("\nstatus:\n  phase: Bound\n  capacity:\n");
        match &capacity {
            Some(c) => {
                raw.append("    storage: ");
                raw.append(c.as_str());
                raw.append("\n");
            },
            None => {},
        }
        assert(raw@ =~= spec_text);
        let yaml = match load_documents(raw.as_str()) {
            Ok(docs) => {
                if docs.len() == 0 {
                    None
                } else {
                    let mut docs = docs;
                    let ghost first = docs@[0]@;
                    assert(items_view(docs@)[0] == first);
                    let d = docs.remove(0);
                    Some(d)
                }
            },
            Err(_) => None,
        };
        let mut text = copy_string(&raw);
        text.append("\n");
        assert(text@ =~= spec_text.push('\n'));
        let access_modes: Vec<String> = Vec::new();
        assert(access_modes.deep_view() =~= Seq::<Seq<char>>::empty());
        PersistentVolumeClaim {
            manifest: Manifest { name, raw: text, yaml },
            namespace: Some(namespace),
            phase: String::from_str("Bound"),
            volume_name: Some(volume_name),
            storage_class,
            capacity,
            access_modes,
        }
    }
}

/// The YAML text made up for a claim known only from its volume.
pub open spec fn synthetic_claim_text(
    name: Seq<char>,
    namespace: Seq<char>,
    volume_name: Seq<char>,
    storage_class: Option<Seq<char>>,
    capacity: Option<Seq<char>>,
) -> Seq<char> {
    "---\napiVersion: v1\nkind: PersistentVolumeClaim\nmetadata:\n  name: "@ + name
        + "\n  namespace: "@ + namespace + "\nspec:\n"@ + match storage_class {
        Some(sc) => "  storageClassName: "@ + sc + "\n"@,
        None => Seq::empty(),
    } + "  volumeName: "@ + volume_name + "\nstatus:\n  phase: Bound\n  capacity:\n"@
        + match capacity {
        Some(c) => "    storage: "@ + c + "\n"@,
        None => Seq::empty(),
    }
}

impl ResourceV2 for PersistentVolumeClaim {
    open spec fn describe(&self) -> SnapshotView {
        let p = self.parts();
        pvc_view(self.manifest_view(), p.0, p.1, p.2, p.3, p.4, p.5)
    }

    fn snapshot(&self) -> (r: ResourceSnapshot) {
        let m = &self.manifest;
        let phase = self.phase.as_str();
        let mut s = base_snapshot(m, "PersistentVolumeClaim", &self.namespace);
        s.health_status = if str_eq(phase, "Bound") {
            HealthStatus::Healthy
        } else if str_eq(phase, "Pending") {
            HealthStatus::Warning
        } else if str_eq(phase, "Lost") {
            HealthStatus::Error
        } else {
            HealthStatus::Unknown
        };
        s.conditions = conditions_of(m);
        if str_eq(phase, "Pending") {
            push_text(
                &mut s.warnings,
                String::from_str("PVC is pending - waiting for volume provisioning"),
            );
        }
        if str_eq(phase, "Lost") {
            push_text(
                &mut s.errors,
                String::from_str("PVC is in Lost state - bound volume no longer exists"),
            );
        }
        let mut summary = join3("PVC ", m.name.as_str(), " - Phase: ");
        summary.append(phase);
        summary.append(" - Storage: ");
        summary.append(text_or(&self.capacity, "N/A"));
        s.summary = Some(summary);
        push_field(&mut s.key_fields, "phase", copy_string(&self.phase));
        push_field_if(&mut s.key_fields, "volume_name", &self.volume_name);
        push_field_if(&mut s.key_fields, "storage_class", &self.storage_class);
        push_field_if(&mut s.key_fields, "capacity", &self.capacity);
        push_field(&mut s.key_fields, "access_modes", join_texts(&self.access_modes, ", "));
        proof {
            let p = self.parts();
            let v = pvc_view(m@, p.0, p.1, p.2, p.3, p.4, p.5);
            assert(s@.warnings =~= v.warnings);
            assert(s@.errors =~= v.errors);
            assert(s@.key_fields =~= v.key_fields);
        }
        s
    }
}

// ---------------------------------------------------------------------------
// PersistentVolume
// ---------------------------------------------------------------------------
/// The claim a volume is bound to, as `namespace/name`.
pub open spec fn claim_ref_of(m: ManifestView) -> Option<Seq<char>> {
    match text_of(m, seq!["spec"@, "claimRef"@, "namespace"@]) {
        Some(ns) => match text_of(m, seq!["spec"@, "claimRef"@, "name"@]) {
            Some(n) => Some(ns + "/"@ + n),
            None => None,
        },
        None => None,
    }
}

/// What a persistent volume yields.
pub open spec fn pv_view(m: ManifestView) -> SnapshotView {
    let phase = or_text(text_of(m, seq!["status"@, "phase"@]), "Unknown"@);
    let claim = claim_ref_of(m);
    let capacity = text_of(m, seq!["spec"@, "capacity"@, "storage"@]);
    SnapshotView {
        health_status: if phase == "Available"@ || phase == "Bound"@ {
            HealthStatus::Healthy
        } else if phase == "Released"@ {
            HealthStatus::Warning
        } else if phase == "Failed"@ {
            HealthStatus::Error
        } else {
            HealthStatus::Unknown
        },
        conditions: condition_views(m),
        warnings: msg_if(
            phase == "Released"@,
            "PV is released - claim was deleted but volume not reclaimed"@,
        ) + msg_if(phase == "Available"@ && claim is Some, "PV is available but has a claim reference"@),
        errors: msg_if(phase == "Failed"@, "PV is in Failed state"@),
        summary: Some(
            "PV "@ + m.name + " - Phase: "@ + phase + " - Capacity: "@ + or_text(capacity, "N/A"@)
                + " - Claim: "@ + or_text(claim, "None"@),
        ),
        key_fields: seq![("phase"@, phase)] + field_if("claim_ref"@, claim) + field_if(
            "storage_class"@,
            text_of(m, seq!["spec"@, "storageClassName"@]),
        ) + field_if("capacity"@, capacity) + field_if(
            "reclaim_policy"@,
            text_of(m, seq!["spec"@, "persistentVolumeReclaimPolicy"@]),
        ) + seq![("access_modes"@, joined(list_of(m, seq!["spec"@, "accessModes"@]), ", "@))],
        ..base_view(m, "PersistentVolume"@, None)
    }
}

/// A persistent volume.
#[derive(Debug)]
pub struct PersistentVolume {
    manifest: Manifest,
}

impl PersistentVolume {
    /// The manifest the volume was read from.
    pub closed spec fn manifest_view(self) -> ManifestView {
        self.manifest@
    }

    /// Reads a volume from its manifest.
    pub fn from(manifest: Manifest) -> (r: PersistentVolume)
        ensures
            r.manifest_view() == manifest@,
    {
        PersistentVolume { manifest }
    }

    /// The volume's name.
    pub fn name(&self) -> (r: &String)
        ensures
            r@ == self.manifest_view().name,
    {
        &self.manifest.name
    }
}

impl ResourceV2 for PersistentVolume {
    open spec fn describe(&self) -> SnapshotView {
        pv_view(self.manifest_view())
    }

    fn snapshot(&self) -> (r: ResourceSnapshot) {
        let m = &self.manifest;
        let phase = text_at_or(m, &keys2("status", "phase"), "Unknown");
        let claim = match text_at(m, &keys3("spec", "claimRef", "namespace")) {
            Some(ns) => match text_at(m, &keys3("spec", "claimRef", "name")) {
                Some(n) => Some(join3(ns.as_str(), "/", n.as_str())),
                None => None,
            },
            None => None,
        };
        let capacity = text_at(m, &keys3("spec", "capacity", "storage"));
        let p = phase.as_str();
        let mut s = base_snapshot(m, "PersistentVolume", &None);
        s.health_status = if str_eq(p, "Available") || str_eq(p, "Bound") {
            HealthStatus::Healthy
        } else if str_eq(p, "Released") {
            HealthStatus::Warning
        } else if str_eq(p, "Failed") {
            HealthStatus::Error
        } else {
            HealthStatus::Unknown
        };
        s.conditions = conditions_of(m);
        if str_eq(p, "Released") {
            push_text(
                &mut s.warnings,
                String::from_str("PV is released - claim was deleted but volume not reclaimed"),
            );
        }
        if str_eq(p, "Available") && claim.is_some() {
            push_text(
                &mut s.warnings,
                String::from_str("PV is available but has a claim reference"),
            );
        }
        if str_eq(p, "Failed") {
            push_text(&mut s.errors, String::from_str("PV is in Failed state"));
        }
        let mut summary = join3("PV ", m.name.as_str(), " - Phase: ");
        summary.append(p);
        summary.append(" - Capacity: ");
        summary.append(text_or(&capacity, "N/A"));
        summary.append(" - Claim: ");
        summary.append(text_or(&claim, "None"));
        s.summary = Some(summary);
        push_field(&mut s.key_fields, "phase", copy_string(&phase));
        push_field_if(&mut s.key_fields, "claim_ref", &claim);
        push_field_if(
            &mut s.key_fields,
            "storage_class",
            &text_at(m, &keys2("spec", "storageClassName")),
        );
        push_field_if(&mut s.key_fields, "capacity", &capacity);
        push_field_if(
            &mut s.key_fields,
            "reclaim_policy",
            &text_at(m, &keys2("spec", "persistentVolumeReclaimPolicy")),
        );
        let modes = list_at(m, &keys2("spec", "accessModes"));
        push_field(&mut s.key_fields, "access_modes", join_texts(&modes, ", "));
        proof {
            let v = pv_view(m@);
            assert(s@.warnings =~= v.warnings);
            assert(s@.errors =~= v.errors);
            assert(s@.key_fields =~= v.key_fields);
        }
        s
    }
}

// ---------------------------------------------------------------------------
// StorageClass
// ---------------------------------------------------------------------------
/// What a storage class yields.
pub open spec fn storageclass_view(m: ManifestView) -> SnapshotView {
    let provisioner = or_text(text_of(m, seq!["provisioner"@]), "Unknown"@);
    let mode = text_of(m, seq!["volumeBindingMode"@]);
    SnapshotView {
        health_status: HealthStatus::Healthy,
        summary: Some(
            "StorageClass "@ + m.name + " - Provisioner: "@ + provisioner + " - Binding: "@
                + or_text(mode, "Immediate"@),
        ),
        key_fields: seq![("provisioner"@, provisioner)] + field_if(
            "reclaim_policy"@,
            text_of(m, seq!["reclaimPolicy"@]),
        ) + field_if("volume_binding_mode"@, mode) + seq![
            ("allow_volume_expansion"@, bool_text(flag_of(m, seq!["allowVolumeExpansion"@]))),
        ],
        ..base_view(m, "StorageClass"@, None)
    }
}

/// A storage class.
#[derive(Debug)]
pub struct StorageClass {
    manifest: Manifest,
}

impl StorageClass {
    /// The manifest the storage class was read from.
    pub closed spec fn manifest_view(self) -> ManifestView {
        self.manifest@
    }

    /// Reads a storage class from its manifest.
    pub fn from(manifest: Manifest) -> (r: StorageClass)
        ensures
            r.manifest_view() == manifest@,
    {
        StorageClass { manifest }
    }
}

impl ResourceV2 for StorageClass {
    open spec fn describe(&self) -> SnapshotView {
        storageclass_view(self.manifest_view())
    }

    fn snapshot(&self) -> (r: ResourceSnapshot) {
        let m = &self.manifest;
        let provisioner = text_at_or(m, &keys1("provisioner"), "Unknown");
        let mode = text_at(m, &keys1("volumeBindingMode"));
        let mut s = base_snapshot(m, "StorageClass", &None);
        s.health_status = HealthStatus::Healthy;
        let mut summary = join3("StorageClass ", m.name.as_str(), " - Provisioner: ");
        summary.append(provisioner.as_str());
        summary.append(" - Binding: ");
        summary.append(text_or(&mode, "Immediate"));
        s.summary = Some(summary);
        push_field(&mut s.key_fields, "provisioner", copy_string(&provisioner));
        push_field_if(&mut s.key_fields, "reclaim_policy", &text_at(m, &keys1("reclaimPolicy")));
        push_field_if(&mut s.key_fields, "volume_binding_mode", &mode);
        push_field(
            &mut s.key_fields,
            "allow_volume_expansion",
            bool_to_text(flag_at(m, &keys1("allowVolumeExpansion"))),
        );
        proof {
            let v = storageclass_view(m@);
            assert(s@.key_fields =~= v.key_fields);
        }
        s
    }
}

// ---------------------------------------------------------------------------
// VolumeAttachment
// ---------------------------------------------------------------------------
/// The attachment reports an error with a message.
pub open spec fn attach_error_of(m: ManifestView) -> Option<Seq<char>> {
    text_of(m, seq!["status"@, "attachError"@, "message"@])
}

/// The attachment has an error with a non-empty message.
pub open spec fn has_attach_error(m: ManifestView) -> bool {
    match attach_error_of(m) {
        Some(e) => e.len() > 0,
        None => false,
    }
}

/// What a volume attachment yields.
pub open spec fn volumeattachment_view(m: ManifestView) -> SnapshotView {
    let attached = flag_of(m, seq!["status"@, "attached"@]);
    let failed = has_attach_error(m);
    let node = text_of(m, seq!["spec"@, "nodeName"@]);
    let pv = text_of(m, seq!["spec"@, "source"@, "persistentVolumeName"@]);
    SnapshotView {
        health_status: if attached {
            HealthStatus::Healthy
        } else if failed {
            HealthStatus::Error
        } else {
            HealthStatus::Warning
        },
        conditions: condition_views(m),
        warnings: msg_if(!attached && !failed, "Volume is not yet attached"@),
        errors: msg_if(
            !attached && failed,
            "Attachment failed: "@ + or_text(attach_error_of(m), ""@),
        ),
        summary: Some(
            "VolumeAttachment "@ + m.name + " - Node: "@ + or_text(node, "N/A"@) + " - PV: "@
                + or_text(pv, "N/A"@) + " - Attached: "@ + bool_text(attached),
        ),
        key_fields: seq![
            ("attacher"@, or_text(text_of(m, seq!["spec"@, "attacher"@]), "Unknown"@)),
        ] + field_if("node_name"@, node) + field_if("pv_name"@, pv) + seq![
            ("attached"@, bool_text(attached)),
        ],
        ..base_view(m, "VolumeAttachment"@, None)
    }
}

/// A volume attachment.
#[derive(Debug)]
pub struct VolumeAttachment {
    manifest: Manifest,
}

impl VolumeAttachment {
    /// The manifest the attachment was read from.
    pub closed spec fn manifest_view(self) -> ManifestView {
        self.manifest@
    }

    /// Reads a volume attachment from its manifest.
    pub fn from(manifest: Manifest) -> (r: VolumeAttachment)
        ensures
            r.manifest_view() == manifest@,
    {
        VolumeAttachment { manifest }
    }
}

impl ResourceV2 for VolumeAttachment {
    open spec fn describe(&self) -> SnapshotView {
        volumeattachment_view(self.manifest_view())
    }

    fn snapshot(&self) -> (r: ResourceSnapshot) {
        proof {
            reveal_strlit("");
        }
        let m = &self.manifest;
        let attached = flag_at(m, &keys2("status", "attached"));
        let error = text_at(m, &keys3("status", "attachError", "message"));
        let failed = match &error {
            Some(e) => e.unicode_len() > 0,
            None => false,
        };
        let node = text_at(m, &keys2("spec", "nodeName"));
        let pv = text_at(m, &keys3("spec", "source", "persistentVolumeName"));
        let mut s = base_snapshot(m, "VolumeAttachment", &None);
        s.health_status = if attached {
            HealthStatus::Healthy
        } else if failed {
            HealthStatus::Error
        } else {
            HealthStatus::Warning
        };
        s.conditions = conditions_of(m);
        if !attached && !failed {
            push_text(&mut s.warnings, String::from_str("Volume is not yet attached"));
        }
        if !attached && failed {
            push_text(&mut s.errors, join2("Attachment failed: ", text_or(&error, "")));
        }
        let mut summary = join3("VolumeAttachment ", m.name.as_str(), " - Node: ");
        summary.append(text_or(&node, "N/A"));
        summary.append(" - PV: ");
        summary.append(text_or(&pv, "N/A"));
        summary.append(" - Attached: ");
        summary.append(bool_to_text(attached).as_str());
        s.summary = Some(summary);
        push_field(
            &mut s.key_fields,
            "attacher",
            text_at_or(m, &keys2("spec", "attacher"), "Unknown"),
        );
        push_field_if(&mut s.key_fields, "node_name", &node);
        push_field_if(&mut s.key_fields, "pv_name", &pv);
        push_field(&mut s.key_fields, "attached", bool_to_text(attached));
        proof {
            let v = volumeattachment_view(m@);
            assert(s@.warnings =~= v.warnings);
            assert(s@.errors =~= v.errors);
            assert(s@.key_fields =~= v.key_fields);
        }
        s
    }
}

// ---------------------------------------------------------------------------
// The first view of each kind
// ---------------------------------------------------------------------------

impl Resource for PersistentVolume {
    open spec fn failing(&self) -> bool {
        or_text(text_of(self.manifest_view(), seq!["status"@, "phase"@]), "Unknown"@) == "Failed"@
    }

    open spec fn warned(&self) -> bool {
        or_text(text_of(self.manifest_view(), seq!["status"@, "phase"@]), "Unknown"@) == "Released"@
    }

    open spec fn flagged(&self) -> Seq<Seq<char>> {
        Seq::empty()
    }

    fn is_error(&self) -> (r: bool) {
        str_eq(text_at_or(&self.manifest, &keys2("status", "phase"), "Unknown").as_str(), "Failed")
    }

    fn is_warning(&self) -> (r: bool) {
        str_eq(text_at_or(&self.manifest, &keys2("status", "phase"), "Unknown").as_str(), "Released")
    }

    fn conditions(&self) -> (r: Vec<String>) {
        no_names()
    }
}

impl Resource for PersistentVolumeClaim {
    open spec fn failing(&self) -> bool {
        self.parts().1 == "Lost"@
    }

    open spec fn warned(&self) -> bool {
        self.parts().1 == "Pending"@
    }

    open spec fn flagged(&self) -> Seq<Seq<char>> {
        Seq::empty()
    }

    fn is_error(&self) -> (r: bool) {
        str_eq(self.phase.as_str(), "Lost")
    }

    fn is_warning(&self) -> (r: bool) {
        str_eq(self.phase.as_str(), "Pending")
    }

    fn conditions(&self) -> (r: Vec<String>) {
        no_names()
    }
}

impl Resource for StorageClass {
    open spec fn failing(&self) -> bool {
        false
    }

    open spec fn warned(&self) -> bool {
        false
    }

    open spec fn flagged(&self) -> Seq<Seq<char>> {
        Seq::empty()
    }

    fn is_error(&self) -> (r: bool) {
        false
    }

    fn is_warning(&self) -> (r: bool) {
        false
    }

    fn conditions(&self) -> (r: Vec<String>) {
        no_names()
    }
}

impl Resource for VolumeAttachment {
    open spec fn failing(&self) -> bool {
        false
    }

    open spec fn warned(&self) -> bool {
        false
    }

    open spec fn flagged(&self) -> Seq<Seq<char>> {
        Seq::empty()
    }

    fn is_error(&self) -> (r: bool) {
        false
    }

    fn is_warning(&self) -> (r: bool) {
        false
    }

    fn conditions(&self) -> (r: Vec<String>) {
        no_names()
    }
}

} // verus!
