use mga::cli::default_site_output_dir;
use mga::registry::{RegistryBuilder, ResourceDescriptor, ResourceRegistry};
use mga::site::{
    detail_script, html_page_text, logs_script, raw_script, script_file, site_index_html,
    summary_script,
};

#[test]
fn test_generate_html_structure() {
    // This will be tested with actual must-gather data
    // Just verify the function signature for now
}

#[test]
fn default_site_output_dir_is_beside_must_gather() {
    assert_eq!(
        default_site_output_dir("/tmp/cases/must-gather-20260526-163424"),
        "/tmp/cases/must-gather-analyze.20260526-163424"
    );
}

#[test]
fn default_site_output_dir_handles_relative_path() {
    assert_eq!(
        default_site_output_dir("cases/must-gather.local.customer.1234"),
        "cases/must-gather-analyze.output"
    );
}

#[test]
fn default_site_output_dir_edge_cases() {
    assert_eq!(
        default_site_output_dir("must-gather-05-26-2026-16-34-24.tar.gz"),
        "must-gather-analyze.20260526-163424"
    );
    assert_eq!(
        default_site_output_dir("/tmp/mg/must-gather-20260526-163424/"),
        "/tmp/mg/must-gather-analyze.20260526-163424"
    );
    assert_eq!(default_site_output_dir("/mg"), "/must-gather-analyze.output");
}

#[test]
fn scripts_record_under_the_uid() {
    assert_eq!(
        detail_script("abc", "{\"a\":1}"),
        "window.__MGA_RESOURCE_DETAILS__ = window.__MGA_RESOURCE_DETAILS__ || {};\nwindow.__MGA_RESOURCE_DETAILS__[\"abc\"] = {\"a\":1};\n"
    );
    assert_eq!(
        raw_script("abc", "\"text\""),
        "window.__MGA_RESOURCE_RAW__ = window.__MGA_RESOURCE_RAW__ || {};\nwindow.__MGA_RESOURCE_RAW__[\"abc\"] = \"text\";\n"
    );
    assert_eq!(
        logs_script("abc", "[]"),
        "window.__MGA_RESOURCE_LOGS__ = window.__MGA_RESOURCE_LOGS__ || {};\nwindow.__MGA_RESOURCE_LOGS__[\"abc\"] = [];\n"
    );
    assert_eq!(summary_script("{}"), "window.__MGA_DATA__ = {};\n");
    assert_eq!(script_file("abc"), "abc.js");
}

#[test]
fn index_page_names_the_asset_version() {
    let page = site_index_html(10, 5);
    assert!(page.contains("assets/index.css?v=15\""));
    assert!(page.contains("assets/index.js?v=15\""));
    assert!(page.starts_with("<!DOCTYPE html>"));
    let wrapped = site_index_html(usize::MAX, 2);
    assert!(wrapped.contains("?v=1\""));
}

#[test]
fn one_page_report_embeds_everything() {
    let page = html_page_text("body{}", "{\"x\":1}", "run();");
    assert!(page.contains("<style>body{}</style>"));
    assert!(page.contains(
        "<script id=\"must-gather-data\" type=\"application/json\">{\"x\":1}</script>"
    ));
    assert!(page.contains("<script type=\"module\">run();</script>"));
}

fn descriptor(kind: &str, group: &str, scoped: bool, display: &str, suffix: &str) -> ResourceDescriptor {
    ResourceDescriptor {
        kind: kind.to_string(),
        group: group.to_string(),
        namespace_scoped: scoped,
        display_name: display.to_string(),
        path_suffix: suffix.to_string(),
    }
}

#[test]
fn test_registry_new() {
    let registry = ResourceRegistry::new();
    assert_eq!(registry.all_descriptors().len(), 0);
}

#[test]
fn test_registry_register_and_get() {
    let mut registry = ResourceRegistry::new();
    registry.register(descriptor("TestResource", "test.example.com", true, "Test Resources", "/test/path"));
    let retrieved = registry.get("test.example.com", "TestResource");
    assert!(retrieved.is_some());
    let desc = retrieved.unwrap();
    assert_eq!(desc.kind, "TestResource");
    assert_eq!(desc.group, "test.example.com");
    assert_eq!(desc.namespace_scoped, true);
    assert_eq!(desc.display_name, "Test Resources");
}

#[test]
fn test_registry_get_nonexistent() {
    let registry = ResourceRegistry::new();
    let result = registry.get("nonexistent", "Resource");
    assert!(result.is_none());
}

#[test]
fn test_registry_all_descriptors() {
    let mut registry = ResourceRegistry::new();
    registry.register(descriptor("Resource1", "group1", false, "Resource 1", "/path1"));
    registry.register(descriptor("Resource2", "group2", true, "Resource 2", "/path2"));
    let all = registry.all_descriptors();
    assert_eq!(all.len(), 2);
}

#[test]
fn test_registry_replace_descriptor() {
    let mut registry = ResourceRegistry::new();
    registry.register(descriptor("TestResource", "test.example.com", true, "First Version", "/path1"));
    registry.register(descriptor("TestResource", "test.example.com", false, "Second Version", "/path2"));
    assert_eq!(registry.all_descriptors().len(), 1);
    let desc = registry.get("test.example.com", "TestResource").unwrap();
    assert_eq!(desc.display_name, "Second Version");
    assert_eq!(desc.namespace_scoped, false);
}

#[test]
fn test_path_builder_function() {
    let mut registry = ResourceRegistry::new();
    registry.register(descriptor("Node", "core", false, "Nodes", "/cluster-scoped-resources/core/nodes"));
    let desc = registry.get("core", "Node").unwrap();
    let path = desc.build_path("/must-gather");
    assert_eq!(path, "/must-gather/cluster-scoped-resources/core/nodes");
}

#[test]
fn test_registry_builder_new() {
    let builder = RegistryBuilder::new();
    let registry = builder.build();
    assert_eq!(registry.all_descriptors().len(), 0);
}

#[test]
fn test_registry_builder_chaining() {
    let registry = RegistryBuilder::new()
        .with_nodes()
        .with_machines()
        .with_pods()
        .with_machinesets()
        .with_clusteroperators()
        .with_machineconfigpools()
        .build();
    assert_eq!(registry.all_descriptors().len(), 0);
}

#[test]
fn test_registry_builder_default() {
    let builder = RegistryBuilder::default();
    let registry = builder.build();
    assert_eq!(registry.all_descriptors().len(), 0);
}

#[test]
fn test_registry_default() {
    let registry = ResourceRegistry::default();
    assert_eq!(registry.all_descriptors().len(), 0);
}

#[test]
fn test_arc_sharing() {
    let mut registry = ResourceRegistry::new();
    registry.register(descriptor("SharedResource", "test", false, "Shared", "/shared"));
    let desc1 = registry.get("test", "SharedResource").unwrap();
    let desc2 = registry.get("test", "SharedResource").unwrap();
    // Both lookups give the one descriptor held by the registry.
    assert!(std::ptr::eq(desc1, desc2));
}
