use fleet_health::metrics::{
    make_disk_usage, reduce_metrics, usage_percent_hundredths, used_space, CpuInfo, DiskUsage,
    SystemMetrics,
};
use fleet_health::status::Status;

fn disk(mount: &str, percent: u64) -> DiskUsage {
    DiskUsage { mount_point: mount.to_string(), total: 1000, used: 500, used_percent: percent }
}

fn payload(disks: Vec<DiskUsage>, cpu: u64, memory: u64) -> SystemMetrics {
    SystemMetrics {
        disk_usage: disks,
        cpu_usage: cpu,
        cpus: vec![
            CpuInfo { name: "cpu0".to_string(), cpu_usage: 1200, frequency: 2400 },
            CpuInfo { name: "cpu1".to_string(), cpu_usage: 9950, frequency: 2400 },
        ],
        total_memory: 16_000_000,
        used_memory: 8_000_000,
        memory_percent: memory,
    }
}

#[test]
fn reducer_marks_each_component() {
    let m = payload(vec![disk("/", 2500), disk("/data", 9500)], 1000, 5000);
    let report = reduce_metrics(&m);
    assert_eq!(report.disks.len(), 2);
    assert_eq!(report.disks[0].status, Status::Green);
    assert_eq!(report.disks[1].status, Status::Red);
    assert_eq!(report.disks[1].mount_point, "/data");
    assert_eq!(report.disk_status, Status::Red);
    assert_eq!(report.cpu_status, Status::Green);
    assert_eq!(report.memory_status, Status::Green);
    // Per-core statuses are informational and use the same rule.
    assert_eq!(report.cpus[0].status, Status::Green);
    assert_eq!(report.cpus[1].status, Status::Red);
}

#[test]
fn reducer_cpu_and_memory_thresholds() {
    let m = payload(vec![disk("/", 1000)], 9001, 9000);
    let report = reduce_metrics(&m);
    assert_eq!(report.disk_status, Status::Green);
    assert_eq!(report.cpu_status, Status::Red);
    // Exactly 90.00% stays green.
    assert_eq!(report.memory_status, Status::Green);
    assert_eq!(report.memory.status, Status::Green);
    assert_eq!(report.cpu_usage, 9001);
}

#[test]
fn reducer_keeps_raw_figures() {
    let m = payload(vec![disk("/", 9500)], 100, 100);
    let report = reduce_metrics(&m);
    assert_eq!(report.disks[0].total, 1000);
    assert_eq!(report.disks[0].used, 500);
    assert_eq!(report.disks[0].used_percent, 9500);
    assert_eq!(report.memory.total_memory, 16_000_000);
    assert_eq!(report.memory.used_memory, 8_000_000);
    assert_eq!(report.cpus[0].name, "cpu0");
    assert_eq!(report.cpus[0].frequency, 2400);
}

#[test]
fn usage_percent_is_exact_hundredths() {
    assert_eq!(usage_percent_hundredths(200, 50), 2500);
    assert_eq!(usage_percent_hundredths(1000, 1000), 10000);
    assert_eq!(usage_percent_hundredths(1000, 0), 0);
    assert_eq!(usage_percent_hundredths(0, 0), 0);
    // Rounded down: 1/3 of the capacity is 33.33%.
    assert_eq!(usage_percent_hundredths(3, 1), 3333);
    // Large capacities do not overflow.
    assert_eq!(usage_percent_hundredths(u64::MAX, u64::MAX), 10000);
}

#[test]
fn used_space_saturates() {
    assert_eq!(used_space(100, 30), 70);
    assert_eq!(used_space(100, 100), 0);
    assert_eq!(used_space(100, 130), 0);
}

#[test]
fn disk_usage_built_from_capacity_and_free_space() {
    let d = make_disk_usage("/".to_string(), 400, 100);
    assert_eq!(d.mount_point, "/");
    assert_eq!(d.total, 400);
    assert_eq!(d.used, 300);
    assert_eq!(d.used_percent, 7500);
    let empty = make_disk_usage("/empty".to_string(), 0, 0);
    assert_eq!(empty.used, 0);
    assert_eq!(empty.used_percent, 0);
}
