use mga::kinds::cluster::ClusterOperator;
use mga::kinds::node::Node;
use mga::kinds::pod::Pod;
use mga::manifest::Manifest;
use mga::mustgather::{MustGather, PlatformInfo, VirtualizationResources};
use mga::report::{ResourceCollection, TriageMustGatherData};
use mga::resources::{ResourceSnapshot, ResourceV2};

const READY_NODE: &str = "kind: Node
metadata:
  name: node-a
  uid: uid-node-a
status:
  conditions:
  - type: MemoryPressure
    status: \"False\"
  - type: Ready
    status: \"True\"
";

const SICK_NODE: &str = "kind: Node
metadata:
  name: node-b
  uid: uid-node-b
status:
  conditions:
  - type: MemoryPressure
    status: \"True\"
    message: memory is low
  - type: Ready
    status: \"False\"
";

const PENDING_POD: &str = "kind: Pod
metadata:
  name: waiting
  namespace: apps
status:
  phase: Pending
  conditions:
  - type: PodScheduled
    status: \"True\"
";

const RUNNING_POD: &str = "kind: Pod
metadata:
  name: serving
  namespace: apps
  uid: uid-serving
status:
  phase: Running
  conditions:
  - type: Ready
    status: \"True\"
";

const DEGRADED_OPERATOR: &str = "kind: ClusterOperator
metadata:
  name: dns
  uid: uid-dns
status:
  conditions:
  - type: Available
    status: \"True\"
  - type: Degraded
    status: \"True\"
";

const HEALTHY_OPERATOR: &str = "kind: ClusterOperator
metadata:
  name: etcd
  uid: uid-etcd
status:
  conditions:
  - type: Available
    status: \"True\"
  - type: Degraded
    status: \"False\"
";

fn manifest(text: &str) -> Manifest {
    Manifest::from(text.to_string()).unwrap()
}

fn node(text: &str) -> ResourceSnapshot {
    Node::from(manifest(text)).snapshot()
}

fn pod(text: &str) -> ResourceSnapshot {
    Pod::from(manifest(text)).snapshot()
}

fn operator(text: &str) -> ResourceSnapshot {
    ClusterOperator::from(manifest(text)).snapshot()
}

fn no_virtualization() -> VirtualizationResources {
    VirtualizationResources {
        hyperconvergeds: Vec::new(),
        kubevirts: Vec::new(),
        virtual_machines: Vec::new(),
        virtual_machine_instances: Vec::new(),
        virtual_machine_pools: Vec::new(),
        virtual_machine_exports: Vec::new(),
        virtual_machine_clones: Vec::new(),
        virtual_machine_snapshots: Vec::new(),
        virtual_machine_snapshot_contents: Vec::new(),
        virtual_machine_restores: Vec::new(),
        data_volumes: Vec::new(),
        data_sources: Vec::new(),
        data_import_crons: Vec::new(),
        instance_types: Vec::new(),
        preferences: Vec::new(),
    }
}

fn must_gather() -> MustGather {
    MustGather {
        title: "must-gather".to_string(),
        collection_timestamp: Some("2026-05-26 16:34:24".to_string()),
        version: "4.15.0".to_string(),
        platformtype: "Unknown".to_string(),
        clusteroperators: vec![operator(DEGRADED_OPERATOR), operator(HEALTHY_OPERATOR)],
        operators: Vec::new(),
        clusterroles: Vec::new(),
        clusterrolebindings: Vec::new(),
        securitycontextconstraints: Vec::new(),
        machines: Vec::new(),
        machinehealthchecks: Vec::new(),
        machinesets: Vec::new(),
        machineconfigurations: Vec::new(),
        machineconfigpools: Vec::new(),
        machineconfigs: Vec::new(),
        nodes: vec![node(READY_NODE), node(SICK_NODE)],
        namespaces: Vec::new(),
        cluster_settings: Vec::new(),
        resourcequotas: Vec::new(),
        limitranges: Vec::new(),
        customresourcedefinitions: Vec::new(),
        dynamicplugins: Vec::new(),
        events: Vec::new(),
        csrs: Vec::new(),
        clusterautoscalers: Vec::new(),
        machineautoscalers: Vec::new(),
        baremetalhosts: Vec::new(),
        controlplanemachinesets: Vec::new(),
        mapipods: Vec::new(),
        mcopods: Vec::new(),
        ccmopods: Vec::new(),
        ccmpods: Vec::new(),
        pods: vec![pod(PENDING_POD), pod(RUNNING_POD)],
        deployments: Vec::new(),
        statefulsets: Vec::new(),
        daemonsets: Vec::new(),
        jobs: Vec::new(),
        cronjobs: Vec::new(),
        replicasets: Vec::new(),
        configmaps: Vec::new(),
        secrets: Vec::new(),
        pvcs: Vec::new(),
        pvs: Vec::new(),
        storage_classes: Vec::new(),
        volume_attachments: Vec::new(),
        routes: Vec::new(),
        services: Vec::new(),
        endpoints: Vec::new(),
        networkpolicies: Vec::new(),
        ingress_controllers: Vec::new(),
        virtualization: no_virtualization(),
        platform_info: PlatformInfo {
            fusion_detected: false,
            odf_detected: true,
            service_mesh_detected: false,
            acm_detected: false,
            virtualization_detected: false,
            cpd_detected: false,
        },
    }
}

fn count(c: &ResourceCollection, name: &str) -> Option<usize> {
    c.counts.iter().find(|(n, _)| n == name).map(|(_, v)| *v)
}

fn uids(c: &ResourceCollection) -> Vec<String> {
    c.items.iter().map(|r| r.uid.clone()).collect()
}

#[test]
fn report_dashboard_counts_nodes_pods_and_operators() {
    let data = TriageMustGatherData::from_must_gather(&must_gather());
    let d = &data.overview.dashboard;
    assert_eq!(d.total_nodes, 2);
    assert_eq!(d.healthy_nodes, 1);
    assert_eq!(d.total_pods, 2);
    assert_eq!(d.healthy_pods, 1);
    assert_eq!(d.total_operators, 2);
    assert_eq!(d.degraded_operators, 1);
    assert_eq!(d.cluster_version.as_deref(), Some("4.15.0"));
    assert_eq!(d.platform_type, None);
    assert_eq!(d.collection_timestamp.as_deref(), Some("2026-05-26 16:34:24"));
    assert_eq!(data.overview.cluster_health.degraded_count, 1);
    assert_eq!(data.overview.cluster_health.unavailable_count, 0);
    assert!(data.platform.odf_detected);
    assert!(!data.platform.fusion_detected);
}

#[test]
fn report_collections_carry_their_counts() {
    let data = TriageMustGatherData::from_must_gather(&must_gather());
    assert_eq!(count(&data.core.nodes, "not_ready_count"), Some(1));
    assert_eq!(count(&data.core.nodes, "pressure_count"), Some(1));
    let pods = &data.core.workloads.pods;
    assert_eq!(count(pods, "pending_count"), Some(1));
    assert_eq!(count(pods, "crashloop_count"), Some(0));
    assert_eq!(count(pods, "oomkilled_count"), Some(0));
    assert_eq!(count(&data.infrastructure.networking.services, "no_endpoints_count"), Some(0));
    assert!(data.core.namespaces.counts.is_empty());
    assert!(data.core.namespaces.items.is_empty());
}

#[test]
fn report_entries_are_filed_under_the_resource_uid() {
    let data = TriageMustGatherData::from_must_gather(&must_gather());
    assert_eq!(uids(&data.core.workloads.pods), vec!["waiting".to_string(), "uid-serving".to_string()]);
    assert_eq!(uids(&data.core.nodes), vec!["uid-node-a".to_string(), "uid-node-b".to_string()]);
    // A pod without a uid is filed under its name.
    let first = &data.core.workloads.pods.items[0];
    assert_eq!(first.raw_path.as_deref(), Some("data/raw/waiting.js"));
    assert_eq!(first.logs_path.as_deref(), Some("data/logs/waiting.js"));
    assert_eq!(first.status, "Warning");
    assert!(first.health_analysis.is_some());
    assert_eq!(data.core.nodes.items[1].status, "Error");
    assert_eq!(data.core.nodes.items[1].logs_path, None);
}

#[test]
fn summary_lists_the_same_resources_without_details() {
    let mg = must_gather();
    let full = TriageMustGatherData::from_must_gather(&mg);
    let summary = TriageMustGatherData::from_must_gather_summary(&mg);
    assert_eq!(uids(&summary.core.workloads.pods), uids(&full.core.workloads.pods));
    assert_eq!(uids(&summary.core.nodes), uids(&full.core.nodes));
    for (s, f) in summary.core.nodes.items.iter().zip(full.core.nodes.items.iter()) {
        assert_eq!(s.name, f.name);
        assert_eq!(s.status, f.status);
        assert_eq!(s.warnings, f.warnings);
        assert!(s.raw.is_empty());
        assert!(!f.raw.is_empty());
        assert_eq!(s.raw_path, None);
        assert!(s.health_analysis.is_none());
        assert!(f.health_analysis.is_some());
        assert!(s.metadata.is_empty());
    }
    assert_eq!(summary.overview.dashboard.healthy_nodes, full.overview.dashboard.healthy_nodes);
    assert_eq!(
        count(&summary.core.workloads.pods, "pending_count"),
        count(&full.core.workloads.pods, "pending_count")
    );
}
