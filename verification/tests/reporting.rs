use steal_monitor::report::{banner, status_line, status_line_with};
use steal_monitor::{AlertLevel, MonitorConfig, StatusRecord, StealReading, ThresholdConfig};

fn record(micro_percent: u64, samples: usize, level: AlertLevel) -> StatusRecord {
    StatusRecord {
        reading: StealReading::from_micro_percent(micro_percent),
        samples,
        average: Some(StealReading::from_micro_percent(micro_percent)),
        level,
    }
}

#[test]
fn sample_count_is_written_in_decimal() {
    let shown = |samples: usize| status_line_with(&record(0, samples, AlertLevel::Normal), "");
    assert_eq!(shown(0), "[] Steal: 0.0% (avg over 0) OK");
    assert_eq!(shown(7), "[] Steal: 0.0% (avg over 7) OK");
    assert_eq!(shown(10), "[] Steal: 0.0% (avg over 10) OK");
    assert_eq!(shown(1234567890), "[] Steal: 0.0% (avg over 1234567890) OK");
}

#[test]
fn status_line_holds_time_reading_count_and_label() {
    let line = status_line_with(&record(3_000_000, 5, AlertLevel::Normal), "2024-03-09 14:05:59");
    assert_eq!(line, "[2024-03-09 14:05:59] Steal: 3.0% (avg over 5) OK");
    let line = status_line_with(&record(6_250_000, 2, AlertLevel::Warning), "t");
    assert_eq!(line, "[t] Steal: 6.3% (avg over 2) WARNING");
    let line = status_line_with(&record(20_000_000, 12, AlertLevel::Critical), "");
    assert_eq!(line, "[] Steal: 20.0% (avg over 12) CRITICAL");
}

#[test]
fn reading_is_rounded_to_one_decimal_place() {
    let shown = |units: u64| status_line_with(&record(units, 1, AlertLevel::Normal), "");
    assert_eq!(shown(0), "[] Steal: 0.0% (avg over 1) OK");
    assert_eq!(shown(49_999), "[] Steal: 0.0% (avg over 1) OK");
    assert_eq!(shown(50_000), "[] Steal: 0.1% (avg over 1) OK");
    assert_eq!(shown(2_049_999), "[] Steal: 2.0% (avg over 1) OK");
    assert_eq!(shown(2_050_000), "[] Steal: 2.1% (avg over 1) OK");
    assert_eq!(shown(99_949_999), "[] Steal: 99.9% (avg over 1) OK");
    assert_eq!(shown(99_950_000), "[] Steal: 100.0% (avg over 1) OK");
    assert_eq!(shown(u64::MAX), "[] Steal: 18446744073709.6% (avg over 1) OK");
}

#[test]
fn time_stamp_is_rendered_as_local_date_and_time() {
    let record = record(3_000_000, 5, AlertLevel::Normal);
    assert_eq!(
        status_line(&record, 0, 0).unwrap(),
        "[1970-01-01 00:00:00] Steal: 3.0% (avg over 5) OK"
    );
    assert_eq!(
        status_line(&record, 1_431_648_000, 0).unwrap(),
        "[2015-05-15 00:00:00] Steal: 3.0% (avg over 5) OK"
    );
    assert_eq!(
        status_line(&record, 1_709_993_159, 0).unwrap(),
        "[2024-03-09 14:05:59] Steal: 3.0% (avg over 5) OK"
    );
}

#[test]
fn time_stamp_follows_the_offset_from_utc() {
    let record = record(20_000_000, 2, AlertLevel::Critical);
    assert_eq!(
        status_line(&record, 1_709_993_159, 3600).unwrap(),
        "[2024-03-09 15:05:59] Steal: 20.0% (avg over 2) CRITICAL"
    );
    assert_eq!(
        status_line(&record, 1_709_993_159, -5 * 3600 - 1800).unwrap(),
        "[2024-03-09 08:35:59] Steal: 20.0% (avg over 2) CRITICAL"
    );
    assert_eq!(
        status_line(&record, 0, -1).unwrap(),
        "[1969-12-31 23:59:59] Steal: 20.0% (avg over 2) CRITICAL"
    );
}

#[test]
fn time_out_of_range_gives_no_line() {
    let record = record(0, 1, AlertLevel::Normal);
    assert_eq!(status_line(&record, 0, 86_400), None);
    assert_eq!(status_line(&record, 0, -86_400), None);
    assert_eq!(status_line(&record, i64::MAX, 0), None);
    assert_eq!(status_line(&record, i64::MIN, 0), None);
    assert!(status_line(&record, 0, 86_399).is_some());
}

#[test]
fn banner_announces_the_defaults() {
    assert_eq!(
        banner(&MonitorConfig::default()),
        vec![
            "CPU Steal Time Monitor Started",
            "   Warning threshold: >5%",
            "   Critical threshold: >15%",
            "   Sample interval: 60s",
        ]
    );
}

#[test]
fn banner_shows_thresholds_in_their_shortest_form() {
    let threshold = |units: u64| StealReading::from_micro_percent(units);
    let shown = |warning: u64, critical: u64, interval: u64| {
        banner(&MonitorConfig {
            thresholds: ThresholdConfig::new(threshold(warning), threshold(critical)).unwrap(),
            interval_seconds: interval,
            window_capacity: 5,
        })
    };
    assert_eq!(
        shown(7_500_000, 12_250_000, 1),
        vec![
            "CPU Steal Time Monitor Started",
            "   Warning threshold: >7.5%",
            "   Critical threshold: >12.25%",
            "   Sample interval: 1s",
        ]
    );
    let lines = shown(0, 1, 0);
    assert_eq!(lines[1], "   Warning threshold: >0%");
    assert_eq!(lines[2], "   Critical threshold: >0.000001%");
    assert_eq!(lines[3], "   Sample interval: 0s");
    let lines = shown(100_000, 100_050_300, u64::MAX);
    assert_eq!(lines[1], "   Warning threshold: >0.1%");
    assert_eq!(lines[2], "   Critical threshold: >100.0503%");
    assert_eq!(lines[3], "   Sample interval: 18446744073709551615s");
    let lines = shown(10_000_000, u64::MAX, 60);
    assert_eq!(lines[1], "   Warning threshold: >10%");
    assert_eq!(lines[2], "   Critical threshold: >18446744073709.551615%");
}
