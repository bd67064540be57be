use fleet_health::availability::Histories;
use fleet_health::engine::{http_endpoint_result, metrics_endpoint_result, MetricsProbeOutcome};
use fleet_health::registry::{Endpoint, EndpointKind};
use fleet_health::snapshot::SnapshotStore;
use fleet_health::status::Status;

fn source(name: &str) -> Endpoint {
    Endpoint {
        name: name.to_string(),
        address: "10.0.0.1".to_string(),
        kind: EndpointKind::MetricsSource,
    }
}

fn probe(name: &str) -> Endpoint {
    Endpoint {
        name: name.to_string(),
        address: "example.com".to_string(),
        kind: EndpointKind::HttpProbe,
    }
}

#[test]
fn read_returns_the_published_cycle_entire() {
    let mut store = SnapshotStore::new();
    assert_eq!(store.len(), 0);
    assert!(store.read().is_empty());

    let mut histories = Histories::new();
    let r1 = metrics_endpoint_result(
        source("srv"),
        MetricsProbeOutcome::Unreachable,
        "t1".to_string(),
    );
    let r2 = http_endpoint_result(probe("site"), 200, "t1".to_string(), &mut histories);
    store.publish(vec![r1, r2]);

    let snapshot = store.read();
    assert_eq!(snapshot.len(), 2);
    assert_eq!(snapshot[0].endpoint.name, "srv");
    assert_eq!(snapshot[0].overall_status, Status::Red);
    assert_eq!(snapshot[1].endpoint.name, "site");
    assert_eq!(snapshot[1].overall_status, Status::Green);
}

#[test]
fn publish_replaces_the_whole_snapshot() {
    let mut store = SnapshotStore::new();
    let mut histories = Histories::new();
    let first = http_endpoint_result(probe("old"), 200, "t1".to_string(), &mut histories);
    store.publish(vec![first]);

    let second = http_endpoint_result(probe("new"), 500, "t2".to_string(), &mut histories);
    store.publish(vec![second]);

    let snapshot = store.read();
    assert_eq!(snapshot.len(), 1);
    assert_eq!(snapshot[0].endpoint.name, "new");
    assert_eq!(snapshot[0].crawl_time, "t2");
    assert_eq!(snapshot[0].overall_status, Status::Red);
}

#[test]
fn reads_are_copies_not_live_references() {
    let mut store = SnapshotStore::new();
    let mut histories = Histories::new();
    let r = http_endpoint_result(probe("site"), 200, "t1".to_string(), &mut histories);
    store.publish(vec![r]);
    let before = store.read();
    store.publish(Vec::new());
    // The earlier copy still shows the cycle it was read from.
    assert_eq!(before.len(), 1);
    assert_eq!(before[0].endpoint.name, "site");
    assert_eq!(store.len(), 0);
}
