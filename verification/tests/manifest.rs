use mga::manifest::{Manifest, ManifestError};

/// A control plane node as a must-gather holds it, managed fields included.
const NODE: &str = "apiVersion: v1
kind: Node
metadata:
  name: ip-10-0-0-1.control.plane
  uid: 00000000-0000-0000-0000-000000000000
  creationTimestamp: \"2024-06-24T12:04:16Z\"
  labels:
    kubernetes.io/hostname: ip-10-0-0-1
    node-role.kubernetes.io/master: \"\"
  managedFields:
  - manager: kubelet
    operation: Update
status:
  conditions:
  - type: MemoryPressure
    status: \"False\"
  - type: PIDPressure
    status: \"False\"
  - type: Ready
    status: \"True\"
    reason: KubeletReady
";

/// A machine config: no status, so no conditions.
const MACHINE_CONFIG: &str = "apiVersion: machineconfiguration.openshift.io/v1
kind: MachineConfig
metadata:
  name: 00-master
spec:
  osImageURL: quay.io/openshift/os@sha256:0000
";

fn node() -> Manifest {
    Manifest::from(NODE.to_string()).unwrap()
}

#[test]
fn test_manifest_from_empty_file() {
    let observed = Manifest::from(String::new());
    assert!(observed.is_err())
}

#[test]
fn test_manifest_as_yaml() {
    let expected = "Node";
    let manifest = node();
    let observed = manifest.as_yaml().unwrap().get("kind").unwrap();
    assert_eq!(observed.as_str().unwrap(), expected)
}

#[test]
fn test_manifest_as_raw() {
    let manifest = node();
    let observed = manifest.as_raw();
    assert!(observed.contains("kind: Node"));
    assert!(observed.contains("name: ip-10-0-0-1.control.plane"));
    assert!(!observed.contains("managedFields"));
}

#[test]
fn test_manifest_name() {
    let expected = String::from("ip-10-0-0-1.control.plane");
    let manifest = node();
    assert_eq!(manifest.name, expected)
}

#[test]
fn test_manifest_has_condition_status_true() {
    assert_eq!(node().has_condition_status("Ready", "True"), true)
}

#[test]
fn test_manifest_has_condition_status_false() {
    assert_eq!(node().has_condition_status("PIDPressure", "True"), false)
}

#[test]
fn test_manifest_has_condition_status_false_nonexistant() {
    assert_eq!(node().has_condition_status("foo", "bar"), false)
}

#[test]
fn test_manifest_has_condition_true() {
    assert_eq!(node().has_condition("Ready"), true)
}

#[test]
fn test_manifest_has_condition_false() {
    assert_eq!(node().has_condition("FooBar"), false)
}

#[test]
fn test_manifest_removes_managed_fields() {
    let manifest = node();
    assert!(manifest.at(&["metadata", "managedFields"]).is_none());
}

#[test]
fn test_extract_uid() {
    let uid = node().uid();
    assert!(uid.is_some());
    assert_eq!(uid.unwrap(), "00000000-0000-0000-0000-000000000000");
}

#[test]
fn test_extract_namespace() {
    // Nodes are cluster-scoped, so namespace should be None
    assert!(node().namespace().is_none());
}

#[test]
fn test_extract_labels() {
    let labels = node().labels();
    assert!(!labels.is_empty());
    assert!(labels
        .iter()
        .any(|(k, _)| k == "kubernetes.io/hostname" || k == "node-role.kubernetes.io/master"));
}

#[test]
fn test_extract_annotations() {
    let annotations = node().annotations();
    assert!(annotations.is_empty());
}

#[test]
fn test_extract_creation_timestamp() {
    let timestamp = node().creation_timestamp();
    assert_eq!(timestamp, Some("2024-06-24T12:04:16Z".to_string()));
}

#[test]
fn test_extract_conditions() {
    let conditions = node().conditions();
    assert!(!conditions.is_empty());
    let ready_condition = conditions.iter().find(|(type_, _, _, _)| type_ == "Ready");
    assert!(ready_condition.is_some());
    let (_, status, reason, _) = ready_condition.unwrap();
    assert_eq!(status, "True");
    assert_eq!(reason, &Some("KubeletReady".to_string()));
}

#[test]
fn test_extract_conditions_empty() {
    let manifest = Manifest::from(MACHINE_CONFIG.to_string()).unwrap();
    assert!(manifest.conditions().is_empty());
}

#[test]
fn manifest_text_with_bad_yaml_is_refused() {
    let observed = Manifest::from("key: [unclosed".to_string());
    assert!(matches!(observed, Err(ManifestError::Yaml(_))));
}

#[test]
fn manifest_without_a_name_is_called_unknown() {
    let manifest = Manifest::from("kind: Thing\n".to_string()).unwrap();
    assert_eq!(manifest.name, "Unknown");
}

#[test]
fn list_manifests_hold_each_item() {
    let list = "apiVersion: v1
kind: List
items:
- kind: Deployment
  metadata:
    name: a
    namespace: ns1
- kind: Deployment
  metadata:
    name: b
    managedFields:
    - manager: x
";
    let items = Manifest::from_list(list.to_string()).unwrap();
    assert_eq!(items.len(), 2);
    assert_eq!(items[0].name, "a");
    assert_eq!(items[0].namespace(), Some("ns1".to_string()));
    assert_eq!(items[1].name, "b");
    assert!(items[1].at(&["metadata", "managedFields"]).is_none());
}

#[test]
fn empty_list_has_no_items() {
    let items = Manifest::from_list("kind: List\nitems: null\n".to_string()).unwrap();
    assert!(items.is_empty());
}

#[test]
fn new_manifest_is_empty() {
    let m = Manifest::new();
    assert_eq!(m.name, "");
    assert_eq!(m.raw, "");
    assert!(m.as_yaml().is_none());
}

#[test]
fn tidied_manifest_is_printed_anew_with_metadata_then_status_last() {
    let manifest = node();
    let raw = manifest.as_raw();
    assert!(raw.starts_with("---\n"));
    assert!(raw.ends_with("\n"));
    let kind = raw.find("kind: Node").unwrap();
    let metadata = raw.find("metadata:").unwrap();
    let status = raw.find("status:").unwrap();
    assert!(kind < metadata);
    assert!(metadata < status);
    assert_ne!(raw, NODE);
}
