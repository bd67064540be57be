use fleet_health::registry::{Endpoint, EndpointKind, Registry};

fn endpoint(name: &str, address: &str, kind: EndpointKind) -> Endpoint {
    Endpoint { name: name.to_string(), address: address.to_string(), kind }
}

#[test]
fn duplicate_name_is_rejected_and_registry_unchanged() {
    let mut registry = Registry::new();
    assert!(registry.add(endpoint("web1", "10.0.0.1", EndpointKind::MetricsSource)));
    assert!(!registry.add(endpoint("web1", "10.0.0.2", EndpointKind::HttpProbe)));
    let list = registry.list();
    assert_eq!(list.len(), 1);
    assert_eq!(list[0].name, "web1");
    assert_eq!(list[0].address, "10.0.0.1");
    assert_eq!(list[0].kind, EndpointKind::MetricsSource);
}

#[test]
fn removing_absent_name_is_a_noop() {
    let mut registry = Registry::new();
    registry.add(endpoint("a", "10.0.0.1", EndpointKind::MetricsSource));
    registry.add(endpoint("b", "example.com", EndpointKind::HttpProbe));
    registry.remove(&"missing".to_string());
    let list = registry.list();
    assert_eq!(list.len(), 2);
    assert_eq!(list[0].name, "a");
    assert_eq!(list[1].name, "b");
}

#[test]
fn remove_keeps_order_of_the_rest() {
    let mut registry = Registry::new();
    registry.add(endpoint("a", "1", EndpointKind::MetricsSource));
    registry.add(endpoint("b", "2", EndpointKind::HttpProbe));
    registry.add(endpoint("c", "3", EndpointKind::MetricsSource));
    registry.remove(&"b".to_string());
    let list = registry.list();
    assert_eq!(list.len(), 2);
    assert_eq!(list[0].name, "a");
    assert_eq!(list[1].name, "c");
    assert_eq!(registry.len(), 2);
}

#[test]
fn add_after_remove_succeeds() {
    let mut registry = Registry::new();
    registry.add(endpoint("web1", "1", EndpointKind::HttpProbe));
    registry.remove(&"web1".to_string());
    assert!(registry.add(endpoint("web1", "2", EndpointKind::HttpProbe)));
    let list = registry.list();
    assert_eq!(list.len(), 1);
    assert_eq!(list[0].address, "2");
}

#[test]
fn loading_drops_later_duplicates() {
    let stored = vec![
        endpoint("a", "1", EndpointKind::MetricsSource),
        endpoint("b", "2", EndpointKind::HttpProbe),
        endpoint("a", "3", EndpointKind::HttpProbe),
    ];
    let registry = Registry::from_list(&stored);
    let list = registry.list();
    assert_eq!(list.len(), 2);
    assert_eq!(list[0].name, "a");
    assert_eq!(list[0].address, "1");
    assert_eq!(list[1].name, "b");
}

#[test]
fn list_is_a_copy_in_order() {
    let mut registry = Registry::new();
    registry.add(endpoint("x", "1", EndpointKind::MetricsSource));
    registry.add(endpoint("y", "2", EndpointKind::HttpProbe));
    let first = registry.list();
    registry.remove(&"x".to_string());
    // The earlier copy is untouched by the mutation.
    assert_eq!(first.len(), 2);
    assert_eq!(first[0].name, "x");
}
