use mga::analyzers::node_analyzer::NodeAnalyzer;
use mga::analyzers::pod_analyzer::PodAnalyzer;
use mga::analyzers::{AnalyzerRegistry, HealthAnalyzer};
use mga::kinds::node::Node;
use mga::kinds::pod::Pod;
use mga::manifest::Manifest;
use mga::resources::{Container, ResourceV2};

/// A control plane node that is Ready and under no pressure.
const READY_NODE: &str = "apiVersion: v1
kind: Node
metadata:
  name: ip-10-0-0-1.control.plane
  uid: 00000000-0000-0000-0000-000000000000
  creationTimestamp: \"2024-06-24T12:04:16Z\"
  labels:
    kubernetes.io/hostname: ip-10-0-0-1
    node-role.kubernetes.io/master: \"\"
  managedFields:
  - manager: kubelet
    operation: Update
status:
  conditions:
  - type: MemoryPressure
    status: \"False\"
  - type: DiskPressure
    status: \"False\"
  - type: PIDPressure
    status: \"False\"
  - type: Ready
    status: \"True\"
    reason: KubeletReady
    message: kubelet is posting ready status
";

fn ready_node() -> Node {
    Node::from(Manifest::from(READY_NODE.to_string()).unwrap())
}

#[test]
fn test_node_analyzer_healthy_node() {
    let node = ready_node();
    let analyzer = NodeAnalyzer::new();

    let analysis = analyzer.analyze(&node.snapshot());

    // Healthy node should have high score
    assert!(analysis.health_score >= 80);
    // The test node is Ready, so it should be healthy
    assert!(analysis.is_healthy() || analysis.health_score >= 70);
}

#[test]
fn test_analyzer_registry_dispatch() {
    let node = ready_node();
    let registry = AnalyzerRegistry::new();

    let analysis = registry.analyze(&node.snapshot());

    // Should successfully analyze the node
    assert!(analysis.health_score > 0);
    assert!(analysis.health_score <= 100);
}

#[test]
fn test_pod_analyzer_detects_glibc_runtime_failure_from_logs() {
    let manifest = Manifest::new();
    let mut pod = Pod::from(manifest);
    pod.push_container(Container {
        name: "training-operator".to_string(),
        current_log: "2026-05-22T07:47:21Z /manager: /lib64/libc.so.6: version `GLIBC_2.34' not found (required by /manager)\n".to_string(),
        current_log_path: None,
    });

    let analyzer = PodAnalyzer::new();
    let analysis = analyzer.analyze(&pod.snapshot());

    assert!(analysis
        .issues
        .iter()
        .any(|issue| issue.title == "Runtime Library Mismatch"));
    assert!(analysis.health_score < 100);
}

#[test]
fn registry_routes_pods_to_the_pod_analyzer() {
    let mut pod = Pod::from(Manifest::new());
    pod.push_container(Container {
        name: "app".to_string(),
        current_log: "version `GLIBC_2.34' not found\n".to_string(),
        current_log_path: None,
    });
    let direct = PodAnalyzer::new().analyze(&pod.snapshot());
    let routed = AnalyzerRegistry::new().analyze(&pod.snapshot());
    assert_eq!(direct.health_score, routed.health_score);
    assert_eq!(direct.issues.len(), routed.issues.len());
}

#[test]
fn unknown_kinds_get_a_neutral_analysis() {
    let manifest = Manifest::from("kind: Widget\nmetadata:\n  name: w\n".to_string()).unwrap();
    let generic = mga::kinds::generic::GenericResource::from(manifest);
    let analysis = AnalyzerRegistry::new().analyze(&generic.snapshot());
    assert_eq!(analysis.health_score, 100);
    assert!(analysis.issues.is_empty());
}
