use mga::kinds::generic::GenericResource;
use mga::manifest::Manifest;
use mga::order::{resource_less, sort_resources, sort_texts, text_less, ResourceOrder};
use mga::resources::{ResourceSnapshot, ResourceV2};

fn resource(kind: &str, namespace: Option<&str>, name: &str, uid: &str) -> ResourceSnapshot {
    let mut text = format!("kind: {kind}\nmetadata:\n  name: {name}\n  uid: {uid}\n");
    if let Some(ns) = namespace {
        text.push_str(&format!("  namespace: {ns}\n"));
    }
    GenericResource::from(Manifest::from(text).unwrap()).snapshot()
}

fn uids(v: &[ResourceSnapshot]) -> Vec<String> {
    v.iter().map(|r| r.metadata.uid.clone()).collect()
}

#[test]
fn texts_compare_character_by_character_with_prefixes_first() {
    assert!(text_less("a", "b"));
    assert!(text_less("B", "a"));
    assert!(text_less("ab", "abc"));
    assert!(!text_less("abc", "ab"));
    assert!(!text_less("same", "same"));
    assert!(text_less("", "a"));
}

#[test]
fn sort_texts_orders_strings() {
    let sorted = sort_texts(vec!["b".to_string(), "a".to_string(), "B".to_string(), "a".to_string()]);
    assert_eq!(sorted, vec!["B", "a", "a", "b"]);
}

#[test]
fn sort_by_name_keeps_the_order_of_equal_names() {
    let items = vec![
        resource("Pod", Some("first"), "zeta", "u1"),
        resource("Pod", Some("second"), "alpha", "u2"),
        resource("Pod", Some("third"), "zeta", "u3"),
        resource("Pod", Some("a-fourth"), "zeta", "u4"),
    ];
    let sorted = sort_resources(items, ResourceOrder::Name);
    assert_eq!(uids(&sorted), vec!["u2", "u1", "u3", "u4"]);
}

#[test]
fn sort_by_namespace_puts_cluster_scoped_first() {
    let items = vec![
        resource("Event", Some("b"), "x", "u1"),
        resource("Event", None, "y", "u2"),
        resource("Event", Some("a"), "z", "u3"),
        resource("Event", Some("a"), "w", "u4"),
    ];
    let sorted = sort_resources(items, ResourceOrder::NamespaceName);
    assert_eq!(uids(&sorted), vec!["u2", "u4", "u3", "u1"]);
}

#[test]
fn sort_by_kind_then_name() {
    let items = vec![
        resource("Proxy", None, "cluster", "u1"),
        resource("Network", None, "cluster", "u2"),
        resource("Network", None, "alpha", "u3"),
    ];
    let sorted = sort_resources(items, ResourceOrder::KindName);
    assert_eq!(uids(&sorted), vec!["u3", "u2", "u1"]);
}

#[test]
fn sort_by_kind_namespace_and_name() {
    let items = vec![
        resource("VirtualMachine", Some("b"), "vm", "u1"),
        resource("DataVolume", Some("z"), "dv", "u2"),
        resource("VirtualMachine", Some("a"), "vm", "u3"),
    ];
    let sorted = sort_resources(items, ResourceOrder::KindNamespaceName);
    assert_eq!(uids(&sorted), vec!["u2", "u3", "u1"]);
    assert!(resource_less(
        ResourceOrder::KindNamespaceName,
        &sorted[0],
        &sorted[1]
    ));
}
