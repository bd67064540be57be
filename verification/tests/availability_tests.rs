use fleet_health::availability::{
    availability_status_of, reachability_of, Histories, HistoryRing, StatusRecord, HISTORY_CAPACITY,
};
use fleet_health::status::Status;

fn record(code: u16, time: &str) -> StatusRecord {
    StatusRecord { status_code: code, crawl_time: time.to_string() }
}

#[test]
fn only_code_200_is_green() {
    assert_eq!(availability_status_of(200), Status::Green);
    assert_eq!(availability_status_of(201), Status::Red);
    assert_eq!(availability_status_of(301), Status::Red);
    assert_eq!(availability_status_of(404), Status::Red);
    assert_eq!(availability_status_of(500), Status::Red);
    assert_eq!(availability_status_of(0), Status::Red);
}

#[test]
fn reachability_red_only_for_code_zero() {
    assert_eq!(reachability_of(0), Status::Red);
    assert_eq!(reachability_of(200), Status::Green);
    assert_eq!(reachability_of(500), Status::Green);
    assert_eq!(reachability_of(301), Status::Green);
}

#[test]
fn history_ring_evicts_oldest_past_capacity() {
    let mut ring = HistoryRing::new();
    ring.push(record(200, "t1"));
    ring.push(record(500, "t2"));
    ring.push(record(200, "t3"));
    ring.push(record(404, "t4"));
    let records = ring.records();
    let codes: Vec<u16> = records.iter().map(|r| r.status_code).collect();
    assert_eq!(codes, vec![500, 200, 404]);
    assert_eq!(ring.len(), HISTORY_CAPACITY);
}

#[test]
fn history_ring_never_exceeds_capacity() {
    let mut ring = HistoryRing::new();
    for code in 0..10u16 {
        ring.push(record(code, "t"));
        assert!(ring.len() <= HISTORY_CAPACITY);
    }
    let codes: Vec<u16> = ring.records().iter().map(|r| r.status_code).collect();
    assert_eq!(codes, vec![7, 8, 9]);
}

#[test]
fn histories_keep_endpoints_separate() {
    let mut histories = Histories::new();
    let a = "web-a".to_string();
    let b = "web-b".to_string();
    let ha1 = histories.record(&a, record(200, "t1"));
    let hb1 = histories.record(&b, record(500, "t1"));
    assert_eq!(ha1.len(), 1);
    assert_eq!(ha1[0].status_code, 200);
    assert_eq!(hb1.len(), 1);
    assert_eq!(hb1[0].status_code, 500);
    let ha2 = histories.record(&a, record(301, "t2"));
    let codes: Vec<u16> = ha2.iter().map(|r| r.status_code).collect();
    assert_eq!(codes, vec![200, 301]);
}

#[test]
fn history_survives_transport_failures() {
    let mut histories = Histories::new();
    let name = "flaky".to_string();
    histories.record(&name, record(200, "t1"));
    histories.record(&name, record(0, "t2"));
    let h = histories.record(&name, record(200, "t3"));
    let codes: Vec<u16> = h.iter().map(|r| r.status_code).collect();
    assert_eq!(codes, vec![200, 0, 200]);
}
