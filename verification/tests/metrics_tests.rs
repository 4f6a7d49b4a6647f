use hostwatch::files::FileInfo;
use hostwatch::host::{get_system_metrics, read_host};
use hostwatch::metrics::{
    cap, report_disks, sample_from, BatteryReading, BatteryState, DiskInfo, DiskReading,
    HostReadings, SamplingError, SystemMetrics, TimeRemaining,
};
use hostwatch::percent::{share, Share, FULL_SHARE};

fn readings() -> HostReadings {
    HostReadings {
        memory_used: Some(4 * 1024 * 1024 * 1024),
        memory_total: 16 * 1024 * 1024 * 1024,
        cpu_usage: Some(1250),
        physical_cores: Some(8),
        battery: None,
        disks: Vec::new(),
        temperature: Some(41_500),
    }
}

fn volume(name: &str, total: u64, available: u64) -> DiskReading {
    DiskReading { name: name.to_string(), total, available }
}

fn percent(s: Share) -> f64 {
    s.part as f64 / s.whole as f64 * 100.0
}

fn close(a: f64, b: f64) -> bool {
    (a - b).abs() <= 1e-9 * b.abs().max(1.0)
}

#[test]
fn share_is_the_exact_ratio() {
    assert_eq!(share(1, 4), Some(Share { part: 1, whole: 4 }));
    assert_eq!(share(1, 3), Some(Share { part: 1, whole: 3 }));
    assert_eq!(share(0, 7), Some(Share { part: 0, whole: 7 }));
    assert_eq!(share(7, 7), Some(Share { part: 7, whole: 7 }));
    assert_eq!(share(u64::MAX, u64::MAX), Some(Share { part: u64::MAX, whole: u64::MAX }));
    assert!(close(percent(share(1, 4).expect("known")), 25.0));
    assert!(close(percent(share(1, 3).expect("known")), 100.0 / 3.0));
    assert!(close(percent(share(2, 3).expect("known")), 200.0 / 3.0));
    assert!(close(percent(share(7, 7).expect("known")), 100.0));
    assert_eq!(FULL_SHARE, 10_000);
}

#[test]
fn share_of_nothing_is_unknown() {
    assert_eq!(share(0, 0), None);
    assert_eq!(share(5, 0), None);
}

#[test]
fn share_of_more_than_the_whole_is_unknown() {
    assert_eq!(share(5, 4), None);
}

#[test]
fn share_stays_between_nothing_and_the_whole() {
    let wholes: [u64; 5] = [1, 3, 1000, 16 * 1024 * 1024 * 1024, u64::MAX];
    for whole in wholes {
        for part in [0, 1, whole / 3, whole / 2, whole - 1, whole] {
            if part > whole {
                continue;
            }
            let s = share(part, whole).expect("a valid reading has a share");
            assert_eq!(s.part, part);
            assert_eq!(s.whole, whole);
            assert!(s.whole > 0 && s.part <= s.whole);
            let p = percent(s);
            assert!((0.0..=100.0).contains(&p));
            assert!(close(p, part as f64 / whole as f64 * 100.0));
        }
    }
}

#[test]
fn memory_percentage_of_a_quarter() {
    let m = SystemMetrics::from_readings(&readings());
    assert_eq!(m.memory_used, Some(4 * 1024 * 1024 * 1024));
    assert_eq!(m.memory_total, 16 * 1024 * 1024 * 1024);
    assert_eq!(
        m.memory_percentage,
        Some(Share { part: 4 * 1024 * 1024 * 1024, whole: 16 * 1024 * 1024 * 1024 })
    );
    assert!(close(percent(m.memory_percentage.expect("known")), 25.0));
    assert_eq!(m.cpu_usage, Some(1250));
    assert_eq!(m.cpu_count, 8);
    assert_eq!(m.temperature, Some(41_500));
}

#[test]
fn memory_percentage_without_total_is_unknown() {
    let mut r = readings();
    r.memory_total = 0;
    r.memory_used = Some(0);
    assert_eq!(SystemMetrics::from_readings(&r).memory_percentage, None);
    r.memory_used = Some(12);
    assert_eq!(SystemMetrics::from_readings(&r).memory_percentage, None);
}

#[test]
fn memory_percentage_of_a_third_is_not_cut() {
    let mut r = readings();
    r.memory_used = Some(1);
    r.memory_total = 3;
    let m = SystemMetrics::from_readings(&r);
    assert_eq!(m.memory_percentage, Some(Share { part: 1, whole: 3 }));
    assert!(close(percent(m.memory_percentage.expect("known")), 1.0 / 3.0 * 100.0));
}

#[test]
fn memory_percentage_without_memory_in_use_is_unknown() {
    let mut r = readings();
    r.memory_used = None;
    let m = SystemMetrics::from_readings(&r);
    assert_eq!(m.memory_used, None);
    assert_eq!(m.memory_percentage, None);
    r.memory_used = Some(r.memory_total + 1);
    assert_eq!(SystemMetrics::from_readings(&r).memory_percentage, None);
}

#[test]
fn cpu_usage_is_held_to_the_whole() {
    let mut r = readings();
    r.cpu_usage = Some(10_001);
    assert_eq!(SystemMetrics::from_readings(&r).cpu_usage, Some(10_000));
    r.cpu_usage = Some(10_000);
    assert_eq!(SystemMetrics::from_readings(&r).cpu_usage, Some(10_000));
    r.cpu_usage = None;
    assert_eq!(SystemMetrics::from_readings(&r).cpu_usage, None);
    assert_eq!(cap(u32::MAX), 10_000);
    assert_eq!(cap(0), 0);
}

#[test]
fn at_least_one_core_is_counted() {
    let mut r = readings();
    r.physical_cores = None;
    assert_eq!(SystemMetrics::from_readings(&r).cpu_count, 1);
    r.physical_cores = Some(0);
    assert_eq!(SystemMetrics::from_readings(&r).cpu_count, 1);
    r.physical_cores = Some(1);
    assert_eq!(SystemMetrics::from_readings(&r).cpu_count, 1);
}

#[test]
fn host_without_battery_reports_unavailable() {
    let m = SystemMetrics::from_readings(&readings());
    assert_eq!(m.battery_level, None);
    assert_eq!(m.battery_time_remaining, None);
    assert_eq!(m.battery_state, BatteryState::Unavailable);
}

#[test]
fn discharging_battery_reports_its_time() {
    let mut r = readings();
    r.battery = Some(BatteryReading {
        level: 7_350,
        seconds_remaining: Some(3_725),
        state: BatteryState::Discharging,
    });
    let m = SystemMetrics::from_readings(&r);
    assert_eq!(m.battery_level, Some(7_350));
    assert_eq!(m.battery_state, BatteryState::Discharging);
    assert_eq!(m.battery_time_remaining, Some(TimeRemaining { hours: 1, minutes: 2 }));
}

#[test]
fn battery_on_mains_reports_no_time() {
    let mut r = readings();
    r.battery = Some(BatteryReading {
        level: 12_000,
        seconds_remaining: Some(600),
        state: BatteryState::Charging,
    });
    let m = SystemMetrics::from_readings(&r);
    assert_eq!(m.battery_level, Some(10_000));
    assert_eq!(m.battery_state, BatteryState::Charging);
    assert_eq!(m.battery_time_remaining, None);
    r.battery = Some(BatteryReading {
        level: 10_000,
        seconds_remaining: None,
        state: BatteryState::Full,
    });
    let m = SystemMetrics::from_readings(&r);
    assert_eq!(m.battery_state, BatteryState::Full);
    assert_eq!(m.battery_time_remaining, None);
}

#[test]
fn discharging_battery_without_estimate_reports_no_time() {
    let mut r = readings();
    r.battery = Some(BatteryReading {
        level: 50,
        seconds_remaining: None,
        state: BatteryState::Discharging,
    });
    assert_eq!(SystemMetrics::from_readings(&r).battery_time_remaining, None);
}

#[test]
fn seconds_split_into_hours_and_minutes() {
    assert_eq!(TimeRemaining::from_seconds(0), TimeRemaining { hours: 0, minutes: 0 });
    assert_eq!(TimeRemaining::from_seconds(59), TimeRemaining { hours: 0, minutes: 0 });
    assert_eq!(TimeRemaining::from_seconds(3_599), TimeRemaining { hours: 0, minutes: 59 });
    assert_eq!(TimeRemaining::from_seconds(3_600), TimeRemaining { hours: 1, minutes: 0 });
    assert_eq!(
        TimeRemaining::from_seconds(u64::MAX),
        TimeRemaining { hours: u64::MAX / 3600, minutes: (u64::MAX % 3600) / 60 }
    );
}

#[test]
fn disks_report_the_share_in_use() {
    let list = vec![volume("root", 1000, 250), volume("empty", 0, 0), volume("full", 8, 0)];
    let out = report_disks(&list);
    assert_eq!(
        out,
        vec![
            DiskInfo {
                name: "root".to_string(),
                total: 1000,
                available: 250,
                used_percentage: Some(Share { part: 750, whole: 1000 }),
            },
            DiskInfo { name: "empty".to_string(), total: 0, available: 0, used_percentage: None },
            DiskInfo {
                name: "full".to_string(),
                total: 8,
                available: 0,
                used_percentage: Some(Share { part: 8, whole: 8 }),
            },
        ]
    );
}

#[test]
fn disks_with_more_room_than_size_are_left_out() {
    let list = vec![volume("a", 10, 11), volume("b", 10, 10), volume("c", 0, 1), volume("d", 4, 3)];
    let out = report_disks(&list);
    assert_eq!(out.len(), 2);
    assert_eq!(out[0].name, "b");
    assert_eq!(out[0].used_percentage, Some(Share { part: 0, whole: 10 }));
    assert_eq!(out[1].name, "d");
    assert_eq!(out[1].used_percentage, Some(Share { part: 1, whole: 4 }));
    assert_eq!(DiskInfo::from_reading(&volume("a", 10, 11)), None);
    let mut r = readings();
    r.disks = list;
    let m = SystemMetrics::from_readings(&r);
    assert_eq!(m.disk_usage, out);
    for d in &m.disk_usage {
        assert!(d.available <= d.total);
    }
}

#[test]
fn no_readings_is_a_sampling_error() {
    assert_eq!(sample_from(None), Err(SamplingError::Unavailable));
    assert_eq!(SamplingError::Unavailable.message(), "Failed to query the system");
}

#[test]
fn readings_give_a_snapshot() {
    let m = sample_from(Some(readings())).expect("readings give a snapshot");
    assert_eq!(m, SystemMetrics::from_readings(&readings()));
}

#[test]
fn a_snapshot_of_this_host_is_in_range() {
    match get_system_metrics() {
        Ok(m) => {
            assert!(m.cpu_count >= 1);
            assert_eq!(m.cpu_usage, None);
            assert_eq!(m.battery_level, None);
            assert_eq!(m.battery_state, BatteryState::Unavailable);
            assert_eq!(m.temperature, None);
            match m.memory_used {
                Some(u) => assert_eq!(m.memory_percentage, share(u, m.memory_total)),
                None => assert_eq!(m.memory_percentage, None),
            }
            if let Some(p) = m.memory_percentage {
                assert!(p.whole > 0 && p.part <= p.whole);
            }
            for d in &m.disk_usage {
                assert!(d.available <= d.total);
                assert_eq!(d.used_percentage, share(d.total - d.available, d.total));
                assert_eq!(d.used_percentage.is_some(), d.total > 0);
            }
        }
        Err(e) => assert_eq!(e, SamplingError::Unavailable),
    }
}

#[test]
fn readings_of_this_host_leave_the_rest_unknown() {
    if let Some(h) = read_host() {
        assert_eq!(h.cpu_usage, None);
        assert_eq!(h.battery, None);
        assert_eq!(h.temperature, None);
        if let Some(u) = h.memory_used {
            assert!(u <= h.memory_total);
        }
    }
}

#[test]
fn file_without_known_change_has_time_zero() {
    let f = FileInfo::describe("a.txt".to_string(), "/tmp/a.txt".to_string(), 12, false, None);
    assert_eq!(
        f,
        FileInfo {
            name: "a.txt".to_string(),
            path: "/tmp/a.txt".to_string(),
            size: 12,
            is_directory: false,
            modified: 0,
        }
    );
    let d = FileInfo::describe("d".to_string(), "/d".to_string(), 0, true, Some(99));
    assert!(d.is_directory);
    assert_eq!(d.modified, 99);
}

#[test]
fn platform_that_cannot_be_asked_gives_no_readings() {
    assert_eq!(HostReadings::from_platform(false, 2, 1, Some(4), vec![volume("a", 2, 1)]), None);
}

#[test]
fn platform_readings_leave_the_rest_unknown() {
    let h = HostReadings::from_platform(true, 8, 5, Some(2), vec![volume("a", 10, 4)])
        .expect("a platform that can be asked gives readings");
    assert_eq!(
        h,
        HostReadings {
            memory_used: Some(3),
            memory_total: 8,
            cpu_usage: None,
            physical_cores: Some(2),
            battery: None,
            disks: vec![volume("a", 10, 4)],
            temperature: None,
        }
    );
    let m = sample_from(Some(h)).expect("readings give a snapshot");
    assert_eq!(m.memory_percentage, Some(Share { part: 3, whole: 8 }));
    assert_eq!(m.disk_usage[0].used_percentage, Some(Share { part: 6, whole: 10 }));
}

#[test]
fn more_available_than_total_leaves_the_memory_in_use_unknown() {
    let h = HostReadings::from_platform(true, 8, 9, None, Vec::new())
        .expect("a platform that can be asked gives readings");
    assert_eq!(h.memory_used, None);
    assert_eq!(h.memory_total, 8);
    let m = sample_from(Some(h)).expect("readings give a snapshot");
    assert_eq!(m.memory_used, None);
    assert_eq!(m.memory_percentage, None);
    let h = HostReadings::from_platform(true, 8, 8, None, Vec::new()).expect("readings");
    assert_eq!(h.memory_used, Some(0));
    let h = HostReadings::from_platform(true, u64::MAX, 0, None, Vec::new()).expect("readings");
    assert_eq!(h.memory_used, Some(u64::MAX));
}
