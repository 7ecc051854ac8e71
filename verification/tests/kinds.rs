use mga::kinds::cluster::Namespace;
use mga::kinds::event::Event;
use mga::kinds::generic::GenericResource;
use mga::kinds::machine::{
    has_autoscaling_annotations, is_running_phase, status_replicas, ControlPlaneMachineSet,
    Machine, MachineConfig, MachineConfigPool, MachineConfiguration, MachineHealthCheck,
    MachineSet,
};
use mga::kinds::networking::{Endpoints, IngressController, NetworkPolicy, Route, Service};
use mga::kinds::pod::Pod;
use mga::kinds::rbac::{ClusterRole, ClusterRoleBinding, SecurityContextConstraint};
use mga::manifest::Manifest;
use mga::resources::{
    Resource,
    get_field, Container, HealthStatus, RelationshipType, ResourceSnapshot, ResourceV2,
};

fn manifest(text: &str) -> Manifest {
    Manifest::from(text.to_string()).unwrap()
}

fn field<'a>(s: &'a ResourceSnapshot, key: &str) -> Option<&'a String> {
    get_field(&s.key_fields, key)
}

const RUNNING_MACHINE: &str = "apiVersion: machine.openshift.io/v1beta1
kind: Machine
metadata:
  name: testdata-control-plane-0
  namespace: openshift-machine-api
spec:
  providerID: aws:///us-east-1a/i-0
status:
  phase: Running
";

const PROVISIONING_MACHINE: &str = "apiVersion: machine.openshift.io/v1beta1
kind: Machine
metadata:
  name: testdata-control-plane-1
  namespace: openshift-machine-api
status:
  phase: Provisioning
";

#[test]
fn test_machine_is_running_phase_true() {
    let manifest = manifest(RUNNING_MACHINE);
    assert_eq!(is_running_phase(&manifest), true)
}

#[test]
fn test_machine_is_running_phase_false() {
    let manifest = manifest(PROVISIONING_MACHINE);
    assert_eq!(is_running_phase(&manifest), false)
}

#[test]
fn machine_snapshot_reports_phase_and_provider() {
    let s = Machine::from(manifest(RUNNING_MACHINE)).snapshot();
    assert_eq!(s.health_status, HealthStatus::Healthy);
    assert_eq!(s.summary, Some("Machine testdata-control-plane-0 - Phase: Running".to_string()));
    assert_eq!(field(&s, "provider_id").unwrap(), "aws:///us-east-1a/i-0");
    assert_eq!(s.namespace, Some("openshift-machine-api".to_string()));
    let s = Machine::from(manifest(PROVISIONING_MACHINE)).snapshot();
    assert_eq!(s.health_status, HealthStatus::Error);
    assert_eq!(s.errors, vec!["Machine is not Running".to_string()]);
}

const AUTOSCALED_MACHINESET: &str = "apiVersion: machine.openshift.io/v1beta1
kind: MachineSet
metadata:
  name: testdata-compute-region-2
  namespace: openshift-machine-api
  annotations:
    machine.openshift.io/cluster-api-autoscaler-node-group-min-size: \"0\"
    machine.openshift.io/cluster-api-autoscaler-node-group-max-size: \"3\"
status:
  replicas: 0
";

const PLAIN_MACHINESET: &str = "apiVersion: machine.openshift.io/v1beta1
kind: MachineSet
metadata:
  name: testdata-compute-region-1
  namespace: openshift-machine-api
status:
  replicas: 1
";

#[test]
fn test_machineset_has_autoscaling_annotations_true() {
    let manifest = manifest(AUTOSCALED_MACHINESET);
    assert_eq!(has_autoscaling_annotations(&manifest), true)
}

#[test]
fn test_machineset_has_autoscaling_annotations_false() {
    let manifest = manifest(PLAIN_MACHINESET);
    assert_eq!(has_autoscaling_annotations(&manifest), false)
}

#[test]
fn test_machineset_status_replicas() {
    let manifest = manifest(AUTOSCALED_MACHINESET);
    assert_eq!(status_replicas(&manifest), String::from("0"))
}

#[test]
fn machineset_replicas_missing_or_not_a_number() {
    assert_eq!(status_replicas(&manifest("kind: MachineSet\n")), "Not Found");
    assert_eq!(
        status_replicas(&manifest("kind: MachineSet\nstatus:\n  replicas: many\n")),
        "Unknown"
    );
    let ms = MachineSet::from(manifest(AUTOSCALED_MACHINESET));
    assert!(ms.is_autoscaling());
    assert_eq!(ms.replicas(), "0");
    let s = ms.snapshot();
    assert_eq!(s.warnings, vec!["MachineSet is managed by autoscaling annotations".to_string()]);
    assert_eq!(field(&s, "autoscaling").unwrap(), "true");
}

#[test]
fn test_machineconfig_name() {
    let mc = MachineConfig::from(manifest(
        "kind: MachineConfig\nmetadata:\n  name: 00-master\nspec:\n  osImageURL: quay.io/os\n",
    ));
    assert_eq!(mc.name(), "00-master");
    let s = mc.snapshot();
    assert_eq!(s.summary, Some("MachineConfig 00-master".to_string()));
    assert_eq!(field(&s, "os_image_url").unwrap(), "quay.io/os");
    assert_eq!(s.namespace, None);
}

const DEGRADED_POOL: &str = "kind: MachineConfigPool
metadata:
  name: worker
status:
  machineCount: 3
  readyMachineCount: 2
  conditions:
  - type: Degraded
    status: \"True\"
  - type: Updating
    status: \"False\"
";

#[test]
fn machineconfigpool_degraded_is_an_error() {
    let s = MachineConfigPool::from(manifest(DEGRADED_POOL)).snapshot();
    assert_eq!(s.health_status, HealthStatus::Error);
    assert_eq!(s.errors, vec!["MachineConfigPool is degraded".to_string()]);
    assert!(s.warnings.is_empty());
    assert_eq!(s.summary, Some("MachineConfigPool worker - Degraded".to_string()));
    assert_eq!(field(&s, "machine_count").unwrap(), "3");
    assert_eq!(field(&s, "ready_machine_count").unwrap(), "2");
}

#[test]
fn machineconfiguration_progressing_is_a_warning() {
    let s = MachineConfiguration::from(manifest(
        "kind: MachineConfiguration\nmetadata:\n  name: cluster\nstatus:\n  conditions:\n  - type: BootImageUpdateProgressing\n    status: \"True\"\n",
    ))
    .snapshot();
    assert_eq!(s.health_status, HealthStatus::Warning);
    assert_eq!(s.warnings, vec!["Boot image update is progressing".to_string()]);
    assert_eq!(field(&s, "boot_image_update_degraded").unwrap(), "false");
    assert_eq!(field(&s, "boot_image_update_progressing").unwrap(), "true");
}

#[test]
fn machinehealthcheck_summary_counts_healthy_machines() {
    let s = MachineHealthCheck::from(manifest(
        "kind: MachineHealthCheck\nmetadata:\n  name: mhc\n  namespace: openshift-machine-api\nspec:\n  maxUnhealthy: 40%\nstatus:\n  currentHealthy: 2\n  expectedMachines: 3\n",
    ))
    .snapshot();
    assert_eq!(s.health_status, HealthStatus::Error);
    assert_eq!(s.summary, Some("MachineHealthCheck mhc - 2/3 healthy".to_string()));
    assert_eq!(field(&s, "max_unhealthy").unwrap(), "40%");
    assert_eq!(field(&s, "remediation_allowed").unwrap(), "false");
}

#[test]
fn controlplanemachineset_available() {
    let s = ControlPlaneMachineSet::from(manifest(
        "kind: ControlPlaneMachineSet\nmetadata:\n  name: cluster\nstatus:\n  conditions:\n  - type: Available\n    status: \"True\"\n",
    ))
    .snapshot();
    assert_eq!(s.health_status, HealthStatus::Healthy);
    assert_eq!(s.summary, Some("ControlPlaneMachineSet cluster - Available".to_string()));
    assert!(s.errors.is_empty());
}

#[test]
fn test_namespace_from_manifest_preserves_raw_yaml_and_metadata() {
    let manifest = manifest(
        r#"apiVersion: v1
kind: Namespace
metadata:
  name: test-ns
  uid: "1234"
  creationTimestamp: "2024-06-24T12:04:16Z"
  labels:
    kubernetes.io/metadata.name: test-ns
  annotations:
    openshift.io/display-name: ""
status:
  phase: Active
"#,
    );
    let namespace = Namespace::from(manifest);
    let s = namespace.snapshot();
    assert_eq!(s.name, "test-ns");
    assert!(s.raw.contains("kind: Namespace"));
    assert!(s.raw.contains("metadata:"));
    assert_eq!(namespace.phase, "Active");
    assert_eq!(s.metadata.uid, "1234");
    assert!(!s.metadata.labels.is_empty());
}

#[test]
fn generic_resource_relationships_include_olm_operator_component_refs() {
    let resource = GenericResource::from(manifest(
        r#"apiVersion: operators.coreos.com/v1
kind: Operator
metadata:
  name: isf-operator.ibm-spectrum-fusion-ns
status:
  components:
    refs:
    - apiVersion: operators.coreos.com/v1alpha1
      kind: ClusterServiceVersion
      name: isf-operator.v2.12.2
      namespace: ibm-spectrum-fusion-ns
    - apiVersion: rbac.authorization.k8s.io/v1
      kind: ClusterRole
      name: isf-operator-role
    - apiVersion: rbac.authorization.k8s.io/v1
      kind: ClusterRole
      name: isf-operator-role
"#,
    ));
    let relationships = resource.snapshot().relationships;
    assert_eq!(relationships.len(), 2);
    assert!(relationships.iter().any(|link| {
        link.kind == "ClusterServiceVersion"
            && link.name == "isf-operator.v2.12.2"
            && link.namespace.as_deref() == Some("ibm-spectrum-fusion-ns")
            && link.relationship == RelationshipType::References
    }));
    assert!(relationships.iter().any(|link| {
        link.kind == "ClusterRole"
            && link.name == "isf-operator-role"
            && link.namespace.is_none()
            && link.relationship == RelationshipType::References
    }));
}

#[test]
fn event_names_its_object_and_links_to_it() {
    let e = Event::from(manifest(
        "kind: Event\nmetadata:\n  name: ev1\n  namespace: ns1\ntype: Warning\nreason: BackOff\nmessage: Back-off restarting\ncount: 0\ninvolvedObject:\n  kind: Pod\n  name: p1\nlastTimestamp: \"2024-01-01T00:00:00Z\"\nsource:\n  component: kubelet\n",
    ));
    let s = e.snapshot();
    assert_eq!(s.name, "BackOff - Pod/p1");
    assert_eq!(s.uid, "ev1");
    assert_eq!(s.health_status, HealthStatus::Warning);
    assert_eq!(s.warnings, vec!["Back-off restarting".to_string()]);
    assert_eq!(field(&s, "count").unwrap(), "1");
    assert_eq!(field(&s, "timestamp").unwrap(), "2024-01-01T00:00:00Z");
    assert_eq!(field(&s, "reporting_component").unwrap(), "kubelet");
    assert_eq!(s.relationships.len(), 1);
    assert_eq!(s.relationships[0].namespace, Some("ns1".to_string()));
}

#[test]
fn normal_event_without_object() {
    let s = Event::from(manifest("kind: Event\nmetadata:\n  name: ev2\n")).snapshot();
    assert_eq!(s.name, "Unknown");
    assert_eq!(s.health_status, HealthStatus::Healthy);
    assert!(s.relationships.is_empty());
    assert_eq!(s.summary, Some(String::new()));
    assert!(field(&s, "message").is_none());
}

#[test]
fn endpoints_count_addresses_and_keep_each_port_once() {
    let s = Endpoints::from(manifest(
        "kind: Endpoints\nmetadata:\n  name: svc\n  namespace: ns\nsubsets:\n- addresses:\n  - ip: 10.0.0.1\n  - ip: 10.0.0.2\n  ports:\n  - port: 8080\n    protocol: TCP\n    name: http\n- notReadyAddresses:\n  - ip: 10.0.0.3\n  ports:\n  - port: 8080\n    protocol: TCP\n    name: http\n  - port: 9090\n",
    ))
    .snapshot();
    assert_eq!(s.health_status, HealthStatus::Healthy);
    assert_eq!(s.summary, Some("Endpoints svc - Ready: 2 - Not Ready: 1".to_string()));
    assert_eq!(field(&s, "ports").unwrap(), "8080/TCP (http), 9090/TCP");
}

#[test]
fn endpoints_without_ready_addresses_warn() {
    let s = Endpoints::from(manifest(
        "kind: Endpoints\nmetadata:\n  name: svc\nsubsets:\n- notReadyAddresses:\n  - ip: 10.0.0.3\n",
    ))
    .snapshot();
    assert_eq!(s.health_status, HealthStatus::Warning);
    assert_eq!(s.warnings, vec!["No ready endpoints - 1 not ready addresses".to_string()]);
    let s = Endpoints::from(manifest("kind: Endpoints\nmetadata:\n  name: e\n")).snapshot();
    assert_eq!(
        s.warnings,
        vec!["No endpoints available - service has no backing pods".to_string()]
    );
}

#[test]
fn ingress_controller_replicas() {
    let s = IngressController::from(manifest(
        "kind: IngressController\nmetadata:\n  name: default\nspec:\n  domain: apps.example.com\n  replicas: 3\nstatus:\n  availableReplicas: 1\n  conditions:\n  - type: Available\n    status: \"True\"\n",
    ))
    .snapshot();
    assert_eq!(s.health_status, HealthStatus::Warning);
    assert_eq!(s.warnings, vec!["Only 1/3 replicas are available".to_string()]);
    assert_eq!(
        s.summary,
        Some("IngressController default - Domain: apps.example.com - Replicas: 1/3".to_string())
    );
    let s = IngressController::from(manifest("kind: IngressController\nmetadata:\n  name: x\n"))
        .snapshot();
    assert_eq!(s.health_status, HealthStatus::Error);
    assert_eq!(
        s.errors,
        vec![
            "No replicas are available - ingress is unavailable".to_string(),
            "IngressController is not available".to_string()
        ]
    );
    assert_eq!(field(&s, "replicas").unwrap(), "2");
}

#[test]
fn network_policy_sorts_selector_labels() {
    let s = NetworkPolicy::from(manifest(
        "kind: NetworkPolicy\nmetadata:\n  name: np\n  namespace: ns\nspec:\n  podSelector:\n    matchLabels:\n      tier: web\n      app: shop\n  policyTypes:\n  - Ingress\n  ingress:\n  - {}\n  - {}\n",
    ))
    .snapshot();
    assert_eq!(field(&s, "pod_selector").unwrap(), "app=shop, tier=web");
    assert_eq!(field(&s, "policy_types").unwrap(), "Ingress");
    assert_eq!(field(&s, "ingress_rules").unwrap(), "2");
    assert_eq!(field(&s, "egress_rules").unwrap(), "0");
    let s = NetworkPolicy::from(manifest("kind: NetworkPolicy\nmetadata:\n  name: all\n")).snapshot();
    assert_eq!(field(&s, "pod_selector").unwrap(), "all pods");
    assert_eq!(field(&s, "policy_types").unwrap(), "unspecified");
}

#[test]
fn route_not_admitted_is_an_error() {
    let s = Route::from(manifest(
        "kind: Route\nmetadata:\n  name: r\nspec:\n  host: r.example.com\n  to:\n    name: svc\n  port:\n    targetPort: 8080\nstatus:\n  ingress:\n  - conditions:\n    - type: Admitted\n      status: \"False\"\n      message: host taken\n",
    ))
    .snapshot();
    assert_eq!(s.health_status, HealthStatus::Error);
    assert_eq!(
        s.errors,
        vec![
            "Route is not admitted - traffic cannot reach this route".to_string(),
            "Admission failed: host taken".to_string()
        ]
    );
    assert_eq!(field(&s, "service_port").unwrap(), "8080");
}

#[test]
fn service_without_selector_warns() {
    let s = Service::from(manifest(
        "kind: Service\nmetadata:\n  name: s\nspec:\n  clusterIP: 10.0.0.9\n  ports:\n  - port: 443\n    name: https\n",
    ))
    .snapshot();
    assert_eq!(s.health_status, HealthStatus::Warning);
    assert_eq!(
        s.summary,
        Some("Service s - Type: ClusterIP - ClusterIP: 10.0.0.9 - Ports: 1".to_string())
    );
    assert_eq!(field(&s, "ports").unwrap(), "443/TCP (https)");
}

#[test]
fn rbac_kinds() {
    let s = ClusterRole::from(manifest(
        "kind: ClusterRole\nmetadata:\n  name: view\nrules:\n- {}\n- {}\naggregationRule:\n  clusterRoleSelectors: []\n",
    ))
    .snapshot();
    assert_eq!(s.summary, Some("ClusterRole view - 2 rule(s)".to_string()));
    assert_eq!(field(&s, "aggregation_rule").unwrap(), "true");
    let s = ClusterRoleBinding::from(manifest(
        "kind: ClusterRoleBinding\nmetadata:\n  name: b\nroleRef:\n  name: admin\nsubjects:\n- kind: User\n  name: u\n",
    ))
    .snapshot();
    assert_eq!(s.summary, Some("ClusterRoleBinding b - 1 subject(s) -> admin".to_string()));
    assert_eq!(s.relationships.len(), 1);
    assert_eq!(s.relationships[0].kind, "ClusterRole");
    let s = SecurityContextConstraint::from(manifest(
        "kind: SecurityContextConstraints\nmetadata:\n  name: privileged\nallowPrivilegedContainer: true\nusers:\n- a\ngroups: []\n",
    ))
    .snapshot();
    assert_eq!(s.health_status, HealthStatus::Warning);
    assert_eq!(field(&s, "priority").unwrap(), "unset");
    assert_eq!(
        s.summary,
        Some("SecurityContextConstraint privileged - 1 user(s), 0 group(s)".to_string())
    );
}

const CRASHING_POD: &str = "kind: Pod
metadata:
  name: web-1
  namespace: shop
spec:
  volumes:
  - name: cfg
    configMap:
      name: web-config
status:
  phase: Running
  conditions:
  - type: Ready
    status: \"False\"
    message: containers with unready status
  containerStatuses:
  - name: web
    restartCount: 5
    state:
      waiting:
        reason: CrashLoopBackOff
  - name: sidecar
    restartCount: 2
    state:
      terminated:
        reason: OOMKilled
        exitCode: 137
";

#[test]
fn crashing_pod_reports_its_containers() {
    let mut pod = Pod::from(manifest(CRASHING_POD));
    pod.push_container(Container {
        name: "web".to_string(),
        current_log: "boom\n".to_string(),
        current_log_path: Some("/mg/web/current.log".to_string()),
    });
    pod.push_container(Container {
        name: "sidecar".to_string(),
        current_log: "  \n".to_string(),
        current_log_path: None,
    });
    let s = pod.snapshot();
    assert_eq!(s.health_status, HealthStatus::Error);
    assert_eq!(
        s.warnings,
        vec![
            "Container 'web' has restarted 5 times".to_string(),
            "Container 'sidecar' has restarted 2 times".to_string()
        ]
    );
    assert_eq!(
        s.errors,
        vec![
            "Container 'web': CrashLoopBackOff - container is crashing repeatedly".to_string(),
            "Container 'sidecar': OOMKilled (exit code: 137) - ".to_string(),
            "Ready: containers with unready status".to_string()
        ]
    );
    assert_eq!(field(&s, "restart_count").unwrap(), "7");
    assert_eq!(field(&s, "containers").unwrap(), "2");
    assert_eq!(s.summary, Some("Pod web-1 - Status: Not Ready - Containers: 2".to_string()));
    assert_eq!(s.logs.len(), 1);
    assert_eq!(s.logs[0].name, "web");
    assert_eq!(s.relationships.len(), 1);
    assert_eq!(s.relationships[0].name, "web-config");
}

#[test]
fn succeeded_pod_is_healthy_and_quiet() {
    let s = Pod::from(manifest(
        "kind: Pod\nmetadata:\n  name: job-1\nstatus:\n  phase: Succeeded\n  containerStatuses:\n  - name: c\n    restartCount: 1\n",
    ))
    .snapshot();
    assert_eq!(s.health_status, HealthStatus::Healthy);
    assert!(s.warnings.is_empty());
    assert!(s.errors.is_empty());
}

const HEALTHY_POOL: &str = "kind: MachineConfigPool
metadata:
  name: master
status:
  conditions:
  - type: Degraded
    status: \"False\"
  - type: Updating
    status: \"False\"
";

#[test]
fn test_machineconfigpool_degraded_false() {
    let mcp = MachineConfigPool::from(manifest(HEALTHY_POOL));
    assert_eq!(Resource::is_error(&mcp), false)
}

#[test]
fn test_machineconfigpool_degraded_true() {
    let mcp = MachineConfigPool::from(manifest(DEGRADED_POOL));
    assert_eq!(Resource::is_error(&mcp), true)
}

#[test]
fn test_machineconfigpool_updating_true() {
    let mcp = MachineConfigPool::from(manifest(DEGRADED_POOL));
    assert_eq!(Resource::is_warning(&mcp), false)
}

const QUIET_CONFIGURATION: &str = "kind: MachineConfiguration
metadata:
  name: cluster
status:
  conditions:
  - type: BootImageUpdateDegraded
    status: \"False\"
  - type: BootImageUpdateProgressing
    status: \"False\"
";

#[test]
fn test_machineconfiguration_not_degraded() {
    let mc = MachineConfiguration::from(manifest(QUIET_CONFIGURATION));
    assert_eq!(Resource::is_error(&mc), false)
}

#[test]
fn test_machineconfiguration_not_progressing() {
    let mc = MachineConfiguration::from(manifest(QUIET_CONFIGURATION));
    assert_eq!(Resource::is_warning(&mc), false)
}

#[test]
fn first_view_of_kinds() {
    let updating = MachineConfigPool::from(manifest(
        "kind: MachineConfigPool\nmetadata:\n  name: w\nstatus:\n  conditions:\n  - type: Degraded\n    status: \"True\"\n  - type: Updating\n    status: \"True\"\n",
    ));
    assert!(updating.is_error());
    assert!(updating.is_warning());
    assert_eq!(Resource::conditions(&updating), vec!["Degraded".to_string(), "Updating".to_string()]);
    let machine = Machine::from(manifest(PROVISIONING_MACHINE));
    assert!(machine.is_error());
    let scc = SecurityContextConstraint::from(manifest(
        "kind: SecurityContextConstraints\nmetadata:\n  name: p\nallowPrivilegedContainer: true\n",
    ));
    assert!(!scc.is_error());
    assert!(scc.is_warning());
    let ep = Endpoints::from(manifest("kind: Endpoints\nmetadata:\n  name: e\n"));
    assert!(ep.is_warning());
    assert!(Resource::conditions(&ep).is_empty());
}

#[test]
fn generic_resource_uid_falls_back_to_lowercase_kind_and_name() {
    let s = GenericResource::from(manifest("kind: HyperConverged\nmetadata:\n  name: Kubevirt-HC\n")).snapshot();
    assert_eq!(s.kind, "HyperConverged");
    assert_eq!(s.metadata.uid, "hyperconverged__Kubevirt-HC");
}
