use fleet_health::status::{overall_status_of, status_for_level, CategoryStatuses, Status};

#[test]
fn threshold_boundary_exactly_ninety_is_green() {
    // 90.00% exactly, in hundredths of a percent.
    assert_eq!(status_for_level(9000), Status::Green);
    assert_eq!(status_for_level(9001), Status::Red);
    assert_eq!(status_for_level(8999), Status::Green);
    assert_eq!(status_for_level(0), Status::Green);
    assert_eq!(status_for_level(10000), Status::Red);
    assert_eq!(status_for_level(u64::MAX), Status::Red);
}

#[test]
fn overall_red_iff_some_category_red() {
    let all_green = CategoryStatuses::Metrics {
        disk: Status::Green,
        cpu: Status::Green,
        memory: Status::Green,
    };
    assert_eq!(overall_status_of(&all_green), Status::Green);

    let disk_red = CategoryStatuses::Metrics {
        disk: Status::Red,
        cpu: Status::Green,
        memory: Status::Green,
    };
    assert_eq!(overall_status_of(&disk_red), Status::Red);

    let cpu_red = CategoryStatuses::Metrics {
        disk: Status::Green,
        cpu: Status::Red,
        memory: Status::Green,
    };
    assert_eq!(overall_status_of(&cpu_red), Status::Red);

    let memory_red = CategoryStatuses::Metrics {
        disk: Status::Green,
        cpu: Status::Green,
        memory: Status::Red,
    };
    assert_eq!(overall_status_of(&memory_red), Status::Red);

    let all_red = CategoryStatuses::Metrics {
        disk: Status::Red,
        cpu: Status::Red,
        memory: Status::Red,
    };
    assert_eq!(overall_status_of(&all_red), Status::Red);
}

#[test]
fn overall_collapses_to_availability_status() {
    let green = CategoryStatuses::Availability { status: Status::Green };
    assert_eq!(overall_status_of(&green), Status::Green);
    let red = CategoryStatuses::Availability { status: Status::Red };
    assert_eq!(overall_status_of(&red), Status::Red);
}
