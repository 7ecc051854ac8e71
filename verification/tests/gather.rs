use mga::gather::{
    add_instance_link, build_manifest_path, civil_from_days, claims_from_pvs, finish_claims,
    format_system_time_utc, has_yaml_extension, instance_link_of, instance_scopes,
    must_gather_root_score, normalize_must_gather_timestamp, path_less, resolve_namespace,
    truncate_log, cluster_platform_type, cluster_version, RootDecision, RootSearch,
};
use mga::kinds::storage::PersistentVolume;
use mga::manifest::Manifest;
use mga::resources::{get_field, ResourceV2};

fn manifest(text: &str) -> Manifest {
    Manifest::from(text.to_string()).unwrap()
}

#[test]
fn test_build_manifest_path_cluster_scoped() {
    let expected = String::from("/foo/cluster-scoped-resources/core/nodes");
    let observed = build_manifest_path("/foo", "", "", "nodes", "core");
    assert_eq!(observed, expected)
}

#[test]
fn test_build_manifest_path_cluster_scoped_named_resource() {
    let expected = String::from("/foo/cluster-scoped-resources/core/nodes/node1.yaml");
    let observed = build_manifest_path("/foo", "node1", "", "nodes", "core");
    assert_eq!(observed, expected)
}

#[test]
fn test_build_manifest_path_namespace_scoped() {
    let expected =
        String::from("/foo/namespaces/openshift-machine-api/machine.openshift.io/machines");
    let observed = build_manifest_path(
        "/foo",
        "",
        "openshift-machine-api",
        "machines",
        "machine.openshift.io",
    );
    assert_eq!(observed, expected)
}

#[test]
fn test_build_manifest_path_namespace_scoped_named_resource() {
    let expected = String::from(
        "/foo/namespaces/openshift-machine-api/machine.openshift.io/machines/machine1.yaml",
    );
    let observed = build_manifest_path(
        "/foo",
        "machine1",
        "openshift-machine-api",
        "machines",
        "machine.openshift.io",
    );
    assert_eq!(observed, expected)
}

#[test]
fn manifest_path_without_group() {
    assert_eq!(
        build_manifest_path("/mg/", "", "openshift-machine-api", "pods", ""),
        "/mg/namespaces/openshift-machine-api/pods"
    );
}

#[test]
fn collection_time_from_name() {
    assert_eq!(
        normalize_must_gather_timestamp("must-gather-05-26-2026-16-34-24.tar.gz"),
        Some("2026-05-26 16:34:24".to_string())
    );
    assert_eq!(
        normalize_must_gather_timestamp("must-gather-20260526-163424_unpack"),
        Some("2026-05-26 16:34:24".to_string())
    );
    assert_eq!(
        normalize_must_gather_timestamp("must-gather-20260526-163424extra.zip"),
        Some("2026-05-26 16:34:24".to_string())
    );
    assert_eq!(normalize_must_gather_timestamp("must-gather.local.1234"), None);
    assert_eq!(normalize_must_gather_timestamp("must-gather-2026-05-26"), None);
}

#[test]
fn civil_dates() {
    assert_eq!(civil_from_days(0), (1970, 1, 1));
    assert_eq!(civil_from_days(-1), (1969, 12, 31));
    assert_eq!(civil_from_days(11016), (2000, 2, 29));
    assert_eq!(civil_from_days(20599), (2026, 5, 26));
}

#[test]
fn utc_times() {
    assert_eq!(format_system_time_utc(0), "1970-01-01 00:00:00");
    assert_eq!(format_system_time_utc(1779813264), "2026-05-26 16:34:24");
    assert_eq!(format_system_time_utc(-1), "1969-12-31 23:59:59");
}

#[test]
fn short_logs_are_kept() {
    let log = "line one\nline two\n".to_string();
    assert_eq!(truncate_log(log.clone()), log);
}

#[test]
fn test_get_pod_log_file_truncated() {
    let mut raw = String::new();
    for i in 0..150 {
        raw.push_str(&format!("line {}\n", i));
    }
    let shown = truncate_log(raw);
    assert!(shown.starts_with(
        "camgi warning: log file has been truncated to end, see full contents in the must-gather\n"
    ));
    assert_eq!(shown.lines().count(), 100);
    assert!(shown.contains("line 51\n"));
    assert!(!shown.contains("line 50\n"));
    assert!(shown.ends_with("line 149\n"));
}

#[test]
fn yaml_extensions() {
    assert!(has_yaml_extension("node.yaml"));
    assert!(has_yaml_extension("a.b.yaml"));
    assert!(!has_yaml_extension("README"));
    assert!(!has_yaml_extension(".yaml"));
    assert!(!has_yaml_extension("node.yml"));
    assert!(!has_yaml_extension("node.yaml.bak"));
}

#[test]
fn root_scores() {
    assert_eq!(must_gather_root_score(true, true, true), 8);
    assert_eq!(must_gather_root_score(true, false, false), 4);
    assert_eq!(must_gather_root_score(false, true, true), 4);
    assert_eq!(must_gather_root_score(false, true, false), 0);
}

#[test]
fn path_order_by_components() {
    assert!(path_less("/a/b", "/a-b"));
    assert!(!path_less("/a-b", "/a/b"));
    assert!(path_less("/x/a", "/x/b"));
    assert!(!path_less("/x/a", "/x/a"));
}

#[test]
fn test_find_must_gather_root_prefers_complete_child_over_partial_wrapper() {
    // The wrapper has only a version file; its child is complete.
    let mut search = RootSearch::new("/w");
    let (c, d) = search.next_candidate().unwrap();
    assert_eq!((c.as_str(), d), ("/w", 0));
    assert!(search.first_visit("/w"));
    assert_eq!(search.record("/w", 0, must_gather_root_score(true, false, false)), RootDecision::Expand);
    search.enqueue(vec!["/w/quay-image-full-digest".to_string()], 0);
    let (c, d) = search.next_candidate().unwrap();
    assert!(search.first_visit(&c));
    let decision = search.record(&c, d, must_gather_root_score(true, true, true));
    assert_eq!(decision, RootDecision::Found);
    assert_eq!(c, "/w/quay-image-full-digest");
}

#[test]
fn test_find_must_gather_root_skips_empty_image_directory() {
    let mut search = RootSearch::new("/w");
    let (c, d) = search.next_candidate().unwrap();
    assert!(search.first_visit(&c));
    assert_eq!(search.record(&c, d, 0), RootDecision::Expand);
    search.enqueue(
        vec![
            "/w/quay-image-short-digest".to_string(),
            "/w/quay-image-full-digest".to_string(),
        ],
        d,
    );
    // The empty image directory scores nothing.
    let (c, d) = search.next_candidate().unwrap();
    assert_eq!(c, "/w/quay-image-short-digest");
    assert!(search.first_visit(&c));
    assert_eq!(search.record(&c, d, 0), RootDecision::Expand);
    let (c, d) = search.next_candidate().unwrap();
    assert!(search.first_visit(&c));
    assert_eq!(search.record(&c, d, 8), RootDecision::Found);
    assert_eq!(c, "/w/quay-image-full-digest");
}

#[test]
fn root_search_keeps_the_best_partial_root() {
    let mut search = RootSearch::new("/w");
    let (c, d) = search.next_candidate().unwrap();
    search.first_visit(&c);
    search.record(&c, d, 0);
    search.enqueue(vec!["/w/b".to_string(), "/w/a".to_string()], d);
    let (c, d) = search.next_candidate().unwrap();
    search.first_visit(&c);
    // A partial root one level down: its children are still looked into.
    assert_eq!(search.record(&c, d, 4), RootDecision::Expand);
    let (c, d) = search.next_candidate().unwrap();
    search.first_visit(&c);
    assert_eq!(search.record(&c, d, 4), RootDecision::Expand);
    // Two levels below it the search stops.
    search.enqueue(vec!["/w/a/x".to_string()], d);
    let (c, d) = search.next_candidate().unwrap();
    search.first_visit(&c);
    assert_eq!(search.record(&c, d, 0), RootDecision::Skip);
    assert!(search.next_candidate().is_none());
    // At equal score and depth the earlier path wins.
    assert_eq!(search.result(), Some("/w/a".to_string()));
}

#[test]
fn root_search_visits_each_directory_once() {
    let mut search = RootSearch::new("/w");
    assert!(search.first_visit("/w"));
    assert!(!search.first_visit("/w"));
    assert_eq!(RootSearch::new("/none").result(), None);
}

const BOUND_PV: &str = "kind: PersistentVolume
metadata:
  name: pv-1
spec:
  storageClassName: gp3
  capacity:
    storage: 10Gi
  claimRef:
    namespace: shop
    name: data
status:
  phase: Bound
";

#[test]
fn claims_are_made_up_from_volumes_when_none_was_read() {
    let pv = PersistentVolume::from(manifest(BOUND_PV)).snapshot();
    let claims = claims_from_pvs(&vec![pv]);
    assert_eq!(claims.len(), 1);
    let c = &claims[0];
    assert_eq!(c.name, "data");
    assert_eq!(c.namespace, Some("shop".to_string()));
    assert_eq!(get_field(&c.key_fields, "volume_name").unwrap(), "pv-1");
    assert_eq!(get_field(&c.key_fields, "storage_class").unwrap(), "gp3");
    assert_eq!(get_field(&c.key_fields, "capacity").unwrap(), "10Gi");
    assert_eq!(get_field(&c.key_fields, "phase").unwrap(), "Bound");
}

#[test]
fn claims_sorted_and_repeats_dropped() {
    let pv = PersistentVolume::from(manifest(BOUND_PV)).snapshot();
    let pv2 = PersistentVolume::from(manifest(BOUND_PV)).snapshot();
    let pvs = vec![pv, pv2];
    let claims = finish_claims(Vec::new(), &pvs);
    assert_eq!(claims.len(), 1);
    let read = vec![
        mga::kinds::storage::PersistentVolumeClaim::from(manifest(
            "kind: PersistentVolumeClaim\nmetadata:\n  name: b\n  namespace: x\n",
        ))
        .snapshot(),
        mga::kinds::storage::PersistentVolumeClaim::from(manifest(
            "kind: PersistentVolumeClaim\nmetadata:\n  name: a\n  namespace: x\n",
        ))
        .snapshot(),
    ];
    let claims = finish_claims(read, &pvs);
    let names: Vec<&str> = claims.iter().map(|c| c.name.as_str()).collect();
    assert_eq!(names, vec!["a", "b"]);
}

#[test]
fn namespace_sources_in_order() {
    let direct = manifest("kind: Namespace\nmetadata:\n  name: ns\nstatus:\n  phase: Terminating\n");
    let listed = manifest("kind: Namespace\nmetadata:\n  name: ns\n");
    let ns = resolve_namespace("ns", Some(direct), None, Vec::new(), vec![listed]);
    assert_eq!(ns.phase, "Terminating");
    let other = manifest("kind: Namespace\nmetadata:\n  name: other\n");
    let listed = manifest("kind: Namespace\nmetadata:\n  name: ns\nstatus:\n  phase: Active\n");
    let ns = resolve_namespace("ns", None, None, vec![other], vec![listed]);
    assert_eq!(ns.name(), "ns");
    assert_eq!(ns.snapshot().raw.contains("kind: Namespace"), true);
    let ns = resolve_namespace("lonely", None, None, Vec::new(), Vec::new());
    assert_eq!(ns.name(), "lonely");
    assert_eq!(ns.phase, "Active");
    assert_eq!(ns.snapshot().raw, "lonely");
}

#[test]
fn test_get_custom_resource_definitions_links_custom_resource_instances() {
    let crd = manifest(
        "kind: CustomResourceDefinition\nmetadata:\n  name: volumes.longhorn.io\nspec:\n  group: longhorn.io\n  names:\n    plural: volumes\n    kind: Volume\n  scope: Namespaced\n",
    );
    let crd = mga::kinds::generic::GenericResource::from(crd);
    assert_eq!(crd.crd_group(), Some("longhorn.io"));
    assert_eq!(crd.crd_plural(), Some("volumes"));
    let (cluster, namespaced) = instance_scopes(&crd.crd_scope().map(|s| s.to_string()));
    assert!(!cluster);
    assert!(namespaced);
    let instance = manifest(
        "apiVersion: longhorn.io/v1beta2\nmetadata:\n  name: pvc-98204ab1-e4c2-4d6f-8de1-f389ecd91a14\n",
    );
    let link = instance_link_of(&instance, "Volume", &Some("longhorn-system".to_string())).unwrap();
    assert_eq!(link.kind, "Volume");
    assert_eq!(link.name, "pvc-98204ab1-e4c2-4d6f-8de1-f389ecd91a14");
    assert_eq!(link.namespace, Some("longhorn-system".to_string()));
    let mut links = Vec::new();
    add_instance_link(&mut links, link);
    let again = instance_link_of(&instance, "Volume", &Some("longhorn-system".to_string())).unwrap();
    add_instance_link(&mut links, again);
    assert_eq!(links.len(), 1);
    let mut crd = crd;
    crd.add_relationships(links);
    assert_eq!(crd.snapshot().relationships.len(), 1);
}

#[test]
fn unnamed_instances_get_no_link() {
    let m = manifest("kind: Volume\n");
    assert!(instance_link_of(&m, "Volume", &None).is_none());
}

#[test]
fn test_get_cluster_version() {
    let version = manifest(
        "kind: ClusterVersion\nmetadata:\n  name: version\nstatus:\n  desired:\n    version: X.Y.Z-fake-test\n",
    );
    assert_eq!(cluster_version(&Some(version)), "X.Y.Z-fake-test");
    assert_eq!(cluster_version(&None), "Unknown");
    let infra = manifest(
        "kind: Infrastructure\nmetadata:\n  name: cluster\nstatus:\n  platformStatus:\n    type: AWS\n",
    );
    assert_eq!(cluster_platform_type(&Some(infra)), "AWS");
    assert_eq!(cluster_platform_type(&None), "Unknown");
}
