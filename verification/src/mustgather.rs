//! A must-gather as the report reads it: the cluster's identity, each kind
//! of resource it holds, and the platforms detected from its namespaces.
use crate::resources::{str_eq, ResourceSnapshot, SnapshotView};
use crate::text::{seq_contains, str_contains};
use vstd::prelude::*;

verus! {

/// Platform detection information based on namespace analysis
#[derive(Debug, Clone, Copy)]
pub struct PlatformInfo {
    pub fusion_detected: bool,
    pub odf_detected: bool,
    pub service_mesh_detected: bool,
    pub acm_detected: bool,
    pub virtualization_detected: bool,
    pub cpd_detected: bool,
}

/// Some name of the list satisfies `p`.
pub open spec fn any_name(names: Seq<Seq<char>>, p: spec_fn(Seq<char>) -> bool) -> bool {
    exists|i: int| 0 <= i < names.len() && p(#[trigger] names[i])
}

/// IBM Spectrum Fusion namespaces.
pub open spec fn fusion_namespace(n: Seq<char>) -> bool {
    seq_contains(n, "ibm-spectrum-fusion"@) || seq_contains(n, "isf-"@)
}

/// OpenShift Data Foundation namespaces.
pub open spec fn odf_namespace(n: Seq<char>) -> bool {
    n == "openshift-storage"@ || seq_contains(n, "ocs-"@)
}

/// Service Mesh namespaces.
pub open spec fn service_mesh_namespace(n: Seq<char>) -> bool {
    n == "istio-system"@ || n == "openshift-service-mesh"@ || seq_contains(n, "servicemesh"@)
}

/// Advanced Cluster Management namespaces.
pub open spec fn acm_namespace(n: Seq<char>) -> bool {
    seq_contains(n, "open-cluster-management"@) || seq_contains(n, "multicluster-engine"@)
}

/// OpenShift Virtualization namespaces.
pub open spec fn virtualization_namespace(n: Seq<char>) -> bool {
    n == "openshift-cnv"@ || n == "openshift-virtualization-os-images"@ || seq_contains(
        n,
        "kubevirt"@,
    ) || seq_contains(n, "virtualization"@)
}

/// Cloud Pak for Data namespaces.
pub open spec fn cpd_namespace(n: Seq<char>) -> bool {
    seq_contains(n, "cpd-"@) || seq_contains(n, "zen"@) || seq_contains(n, "ibm-common-services"@)
}

/// The platforms detected from a list of namespace names.
pub open spec fn detected_platforms(names: Seq<Seq<char>>) -> PlatformInfo {
    PlatformInfo {
        fusion_detected: any_name(names, |n: Seq<char>| fusion_namespace(n)),
        odf_detected: any_name(names, |n: Seq<char>| odf_namespace(n)),
        service_mesh_detected: any_name(names, |n: Seq<char>| service_mesh_namespace(n)),
        acm_detected: any_name(names, |n: Seq<char>| acm_namespace(n)),
        virtualization_detected: any_name(names, |n: Seq<char>| virtualization_namespace(n)),
        cpd_detected: any_name(names, |n: Seq<char>| cpd_namespace(n)),
    }
}

/// The names of a list of resources.
pub open spec fn names_of(resources: Seq<SnapshotView>) -> Seq<Seq<char>> {
    resources.map_values(|r: SnapshotView| r.name)
}

fn is_fusion(n: &str) -> (r: bool)
    ensures
        r == fusion_namespace(n@),
{
    str_contains(n, "ibm-spectrum-fusion") || str_contains(n, "isf-")
}

fn is_odf(n: &str) -> (r: bool)
    ensures
        r == odf_namespace(n@),
{
    str_eq(n, "openshift-storage") || str_contains(n, "ocs-")
}

fn is_service_mesh(n: &str) -> (r: bool)
    ensures
        r == service_mesh_namespace(n@),
{
    str_eq(n, "istio-system") || str_eq(n, "openshift-service-mesh") || str_contains(
        n,
        "servicemesh",
    )
}

fn is_acm(n: &str) -> (r: bool)
    ensures
        r == acm_namespace(n@),
{
    str_contains(n, "open-cluster-management") || str_contains(n, "multicluster-engine")
}

fn is_virtualization(n: &str) -> (r: bool)
    ensures
        r == virtualization_namespace(n@),
{
    str_eq(n, "openshift-cnv") || str_eq(n, "openshift-virtualization-os-images") || str_contains(
        n,
        "kubevirt",
    ) || str_contains(n, "virtualization")
}

fn is_cpd(n: &str) -> (r: bool)
    ensures
        r == cpd_namespace(n@),
{
    str_contains(n, "cpd-") || str_contains(n, "zen") || str_contains(n, "ibm-common-services")
}

impl PlatformInfo {
    /// Detect platforms based on namespace names
    pub fn detect(namespaces: &Vec<ResourceSnapshot>) -> (r: PlatformInfo)
        ensures
            r == detected_platforms(names_of(namespaces.deep_view())),
    {
        let ghost names = names_of(namespaces.deep_view());
        let mut info = PlatformInfo {
            fusion_detected: false,
            odf_detected: false,
            service_mesh_detected: false,
            acm_detected: false,
            virtualization_detected: false,
            cpd_detected: false,
        };
        let mut i: usize = 0;
        while i < namespaces.len()
            invariant
                i <= namespaces.len(),
                names == names_of(namespaces.deep_view()),
                info == detected_platforms(names.take(i as int)),
            decreases namespaces.len() - i,
        {
            let n = namespaces[i].name.as_str();
            assert(names[i as int] == n@);
            let ghost pre = names.take(i as int);
            let ghost post = names.take(i + 1);
            assert(post =~= pre.push(n@));
            assert forall|p: spec_fn(Seq<char>) -> bool| any_name(post, p) == (any_name(pre, p) || p(
                n@,
            )) by {
                if p(n@) {
                    assert(post[i as int] == n@);
                }
                if any_name(pre, p) {
                    let k = choose|k: int| 0 <= k < pre.len() && p(#[trigger] pre[k]);
                    assert(post[k] == pre[k]);
                }
                if any_name(post, p) {
                    let k = choose|k: int| 0 <= k < post.len() && p(#[trigger] post[k]);
                    if k < i {
                        assert(pre[k] == post[k]);
                    }
                }
            }
            info = PlatformInfo {
                fusion_detected: info.fusion_detected || is_fusion(n),
                odf_detected: info.odf_detected || is_odf(n),
                service_mesh_detected: info.service_mesh_detected || is_service_mesh(n),
                acm_detected: info.acm_detected || is_acm(n),
                virtualization_detected: info.virtualization_detected || is_virtualization(n),
                cpd_detected: info.cpd_detected || is_cpd(n),
            };
            i = i + 1;
        }
        assert(names.take(namespaces.len() as int) =~= names);
        info
    }
}

/// OpenShift Virtualization resources
#[derive(Debug)]
pub struct VirtualizationResources {
    pub hyperconvergeds: Vec<ResourceSnapshot>,
    pub kubevirts: Vec<ResourceSnapshot>,
    pub virtual_machines: Vec<ResourceSnapshot>,
    pub virtual_machine_instances: Vec<ResourceSnapshot>,
    pub virtual_machine_pools: Vec<ResourceSnapshot>,
    pub virtual_machine_exports: Vec<ResourceSnapshot>,
    pub virtual_machine_clones: Vec<ResourceSnapshot>,
    pub virtual_machine_snapshots: Vec<ResourceSnapshot>,
    pub virtual_machine_snapshot_contents: Vec<ResourceSnapshot>,
    pub virtual_machine_restores: Vec<ResourceSnapshot>,
    pub data_volumes: Vec<ResourceSnapshot>,
    pub data_sources: Vec<ResourceSnapshot>,
    pub data_import_crons: Vec<ResourceSnapshot>,
    pub instance_types: Vec<ResourceSnapshot>,
    pub preferences: Vec<ResourceSnapshot>,
}

impl VirtualizationResources {
    /// No virtualization resource of any kind.
    pub open spec fn empty_spec(&self) -> bool {
        &&& self.hyperconvergeds@.len() == 0
        &&& self.kubevirts@.len() == 0
        &&& self.virtual_machines@.len() == 0
        &&& self.virtual_machine_instances@.len() == 0
        &&& self.virtual_machine_pools@.len() == 0
        &&& self.virtual_machine_exports@.len() == 0
        &&& self.virtual_machine_clones@.len() == 0
        &&& self.virtual_machine_snapshots@.len() == 0
        &&& self.virtual_machine_snapshot_contents@.len() == 0
        &&& self.virtual_machine_restores@.len() == 0
        &&& self.data_volumes@.len() == 0
        &&& self.data_sources@.len() == 0
        &&& self.data_import_crons@.len() == 0
        &&& self.instance_types@.len() == 0
        &&& self.preferences@.len() == 0
    }

    /// Whether there is no virtualization resource of any kind.
    pub fn is_empty(&self) -> (r: bool)
        ensures
            r == self.empty_spec(),
    {
        self.hyperconvergeds.len() == 0 && self.kubevirts.len() == 0
            && self.virtual_machines.len() == 0 && self.virtual_machine_instances.len() == 0
            && self.virtual_machine_pools.len() == 0 && self.virtual_machine_exports.len() == 0
            && self.virtual_machine_clones.len() == 0 && self.virtual_machine_snapshots.len() == 0
            && self.virtual_machine_snapshot_contents.len() == 0
            && self.virtual_machine_restores.len() == 0 && self.data_volumes.len() == 0
            && self.data_sources.len() == 0 && self.data_import_crons.len() == 0
            && self.instance_types.len() == 0 && self.preferences.len() == 0
    }
}

/// The platforms detected from the namespaces, virtualization also when
/// any virtualization resource was read.
pub open spec fn platforms_with(names: Seq<Seq<char>>, no_virtualization: bool) -> PlatformInfo {
    let p = detected_platforms(names);
    PlatformInfo { virtualization_detected: p.virtualization_detected || !no_virtualization, ..p }
}

/// Detects the platforms of a must-gather from its namespaces and its
/// virtualization resources.
pub fn detect_platforms(namespaces: &Vec<ResourceSnapshot>, virtualization: &VirtualizationResources) -> (r:
    PlatformInfo)
    ensures
        r == platforms_with(names_of(namespaces.deep_view()), virtualization.empty_spec()),
{
    let mut info = PlatformInfo::detect(namespaces);
    if !virtualization.is_empty() {
        info.virtualization_detected = true;
    }
    info
}

/// Everything read from a must-gather, each resource by what it yields.
#[derive(Debug)]
pub struct MustGather {
    pub title: String,
    pub collection_timestamp: Option<String>,
    pub version: String,
    pub platformtype: String,
    pub clusteroperators: Vec<ResourceSnapshot>,
    pub operators: Vec<ResourceSnapshot>,
    pub clusterroles: Vec<ResourceSnapshot>,
    pub clusterrolebindings: Vec<ResourceSnapshot>,
    pub securitycontextconstraints: Vec<ResourceSnapshot>,
    pub machines: Vec<ResourceSnapshot>,
    pub machinehealthchecks: Vec<ResourceSnapshot>,
    pub machinesets: Vec<ResourceSnapshot>,
    pub machineconfigurations: Vec<ResourceSnapshot>,
    pub machineconfigpools: Vec<ResourceSnapshot>,
    pub machineconfigs: Vec<ResourceSnapshot>,
    pub nodes: Vec<ResourceSnapshot>,
    pub namespaces: Vec<ResourceSnapshot>,
    pub cluster_settings: Vec<ResourceSnapshot>,
    pub resourcequotas: Vec<ResourceSnapshot>,
    pub limitranges: Vec<ResourceSnapshot>,
    pub customresourcedefinitions: Vec<ResourceSnapshot>,
    pub dynamicplugins: Vec<ResourceSnapshot>,
    pub events: Vec<ResourceSnapshot>,
    pub csrs: Vec<ResourceSnapshot>,
    pub clusterautoscalers: Vec<ResourceSnapshot>,
    pub machineautoscalers: Vec<ResourceSnapshot>,
    pub baremetalhosts: Vec<ResourceSnapshot>,
    pub controlplanemachinesets: Vec<ResourceSnapshot>,
    pub mapipods: Vec<ResourceSnapshot>,
    pub mcopods: Vec<ResourceSnapshot>,
    pub ccmopods: Vec<ResourceSnapshot>,
    pub ccmpods: Vec<ResourceSnapshot>,
    /// All pods from all namespaces
    pub pods: Vec<ResourceSnapshot>,
    pub deployments: Vec<ResourceSnapshot>,
    pub statefulsets: Vec<ResourceSnapshot>,
    pub daemonsets: Vec<ResourceSnapshot>,
    pub jobs: Vec<ResourceSnapshot>,
    pub cronjobs: Vec<ResourceSnapshot>,
    pub replicasets: Vec<ResourceSnapshot>,
    pub configmaps: Vec<ResourceSnapshot>,
    pub secrets: Vec<ResourceSnapshot>,
    pub pvcs: Vec<ResourceSnapshot>,
    pub pvs: Vec<ResourceSnapshot>,
    pub storage_classes: Vec<ResourceSnapshot>,
    pub volume_attachments: Vec<ResourceSnapshot>,
    pub routes: Vec<ResourceSnapshot>,
    pub services: Vec<ResourceSnapshot>,
    pub endpoints: Vec<ResourceSnapshot>,
    pub networkpolicies: Vec<ResourceSnapshot>,
    pub ingress_controllers: Vec<ResourceSnapshot>,
    pub virtualization: VirtualizationResources,
    pub platform_info: PlatformInfo,
}

} // verus!
