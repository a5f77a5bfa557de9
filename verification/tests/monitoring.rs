use steal_monitor::monitor::{DEFAULT_INTERVAL_SECONDS, DEFAULT_WINDOW_CAPACITY};
use steal_monitor::{
    Alert, AlertLevel, Monitor, MonitorConfig, SampleError, StatusRecord, StealReading,
    ThresholdConfig, TickActions,
};

fn reading(percent: f64) -> StealReading {
    StealReading::from_micro_percent((percent * 1_000_000.0).round() as u64)
}

fn monitor_with(warning: f64, critical: f64, capacity: usize) -> Monitor {
    Monitor::new(MonitorConfig {
        thresholds: ThresholdConfig::new(reading(warning), reading(critical)).unwrap(),
        interval_seconds: 60,
        window_capacity: capacity,
    })
}

fn record_of(actions: &TickActions) -> StatusRecord {
    actions.report.unwrap()
}

#[test]
fn defaults_are_preserved() {
    let config = MonitorConfig::default();
    assert_eq!(config.thresholds.warning(), reading(5.0));
    assert_eq!(config.thresholds.critical(), reading(15.0));
    assert_eq!(config.interval_seconds, 60);
    assert_eq!(config.window_capacity, 5);
    assert_eq!(DEFAULT_INTERVAL_SECONDS, 60);
    assert_eq!(DEFAULT_WINDOW_CAPACITY, 5);
    let monitor = Monitor::new(config);
    assert!(monitor.window().is_empty());
    assert_eq!(monitor.window().capacity(), 5);
    assert_eq!(monitor.interval_seconds(), 60);
    assert_eq!(monitor.thresholds().warning(), reading(5.0));
    assert_eq!(monitor.thresholds().critical(), reading(15.0));
}

#[test]
fn scenario_calm_readings_stay_ok() {
    let mut monitor = monitor_with(5.0, 15.0, 5);
    let mut last = None;
    for percent in [2.0, 3.0, 4.0, 3.0, 3.0] {
        let actions = monitor.tick(Ok(reading(percent)));
        assert_eq!(actions.alert, None);
        last = Some(record_of(&actions));
    }
    let record = last.unwrap();
    assert_eq!(record.average, Some(reading(3.0)));
    assert_eq!(record.level, AlertLevel::Normal);
    assert_eq!(record.samples, 5);
    assert_eq!(record.reading, reading(3.0));
    assert_eq!(monitor.window().mean(), Some(reading(3.0)));
}

#[test]
fn scenario_elevated_readings_warn_on_every_tick() {
    let mut monitor = monitor_with(5.0, 15.0, 5);
    let mut alerts = 0;
    for (tick, percent) in [6.0, 6.0, 6.0].into_iter().enumerate() {
        let actions = monitor.tick(Ok(reading(percent)));
        let record = record_of(&actions);
        assert_eq!(record.average, Some(reading(6.0)));
        assert_eq!(record.level, AlertLevel::Warning);
        assert_eq!(record.samples, tick + 1);
        assert_eq!(
            actions.alert,
            Some(Alert {
                level: AlertLevel::Warning,
                message: "Warning: Elevated steal time. Monitor for patterns.",
            })
        );
        alerts += 1;
    }
    assert_eq!(alerts, 3);
}

#[test]
fn scenario_high_readings_are_critical_both_times() {
    let mut monitor = monitor_with(5.0, 15.0, 5);
    for _ in 0..2 {
        let actions = monitor.tick(Ok(reading(20.0)));
        let record = record_of(&actions);
        assert_eq!(record.average, Some(reading(20.0)));
        assert_eq!(record.level, AlertLevel::Critical);
        let alert = actions.alert.unwrap();
        assert_eq!(alert.level, AlertLevel::Critical);
        assert_eq!(
            alert.message,
            "CRITICAL: Sustained high steal time detected! Consider upgrading to dedicated CPU."
        );
    }
}

#[test]
fn classification_follows_the_average_not_the_reading() {
    let mut monitor = monitor_with(5.0, 15.0, 5);
    for _ in 0..4 {
        monitor.tick(Ok(reading(1.0)));
    }
    let actions = monitor.tick(Ok(reading(20.0)));
    let record = record_of(&actions);
    assert_eq!(record.reading, reading(20.0));
    assert_eq!(record.average, Some(reading(4.8)));
    assert_eq!(record.level, AlertLevel::Normal);
    assert_eq!(actions.alert, None);
}

#[test]
fn failed_tick_leaves_the_window_alone() {
    let mut monitor = monitor_with(5.0, 15.0, 5);
    monitor.tick(Ok(reading(2.0)));
    let before = monitor.window().readings();
    for error in [SampleError::SourceUnavailable, SampleError::MalformedData] {
        let actions = monitor.tick(Err(error));
        assert_eq!(actions.report, Err(error));
        assert_eq!(actions.alert, None);
        assert_eq!(actions.sleep_seconds, 60);
        assert_eq!(monitor.window().readings(), before);
    }
}

#[test]
fn failure_between_two_readings_does_not_shift_the_window() {
    let mut with_failure = monitor_with(5.0, 15.0, 2);
    with_failure.tick(Ok(reading(1.0)));
    with_failure.tick(Ok(reading(4.0)));
    with_failure.tick(Err(SampleError::SourceUnavailable));
    let after_failure = with_failure.tick(Ok(reading(8.0)));

    let mut without = monitor_with(5.0, 15.0, 2);
    without.tick(Ok(reading(1.0)));
    without.tick(Ok(reading(4.0)));
    let plain = without.tick(Ok(reading(8.0)));

    assert_eq!(after_failure, plain);
    assert_eq!(with_failure.window().readings(), vec![reading(4.0), reading(8.0)]);
    assert_eq!(record_of(&after_failure).average, Some(reading(6.0)));
    assert_eq!(record_of(&after_failure).level, AlertLevel::Warning);
}

#[test]
fn malformed_source_leaves_the_window_alone() {
    let mut monitor = monitor_with(5.0, 15.0, 5);
    let good: &[u8] = b"cpu 90 0 0 0 0 0 0 10 0 0\n";
    let short: &[u8] = b"cpu 90 0 0 0 0 0 0 10\n";
    let garbled: &[u8] = b"cpu 90 0 zero 0 0 0 0 10 0 0\n";
    let first = monitor.observe(Some(good));
    assert_eq!(record_of(&first).reading, reading(10.0));
    assert_eq!(record_of(&first).level, AlertLevel::Warning);
    for source in [Some(short), Some(garbled)] {
        let actions = monitor.observe(source);
        assert_eq!(actions.report, Err(SampleError::MalformedData));
        assert_eq!(actions.alert, None);
        assert_eq!(monitor.window().readings(), vec![reading(10.0)]);
    }
    let missing = monitor.observe(None);
    assert_eq!(missing.report, Err(SampleError::SourceUnavailable));
    assert_eq!(monitor.window().readings(), vec![reading(10.0)]);
}

#[test]
fn every_tick_asks_for_the_configured_sleep() {
    let mut monitor = Monitor::new(MonitorConfig {
        thresholds: ThresholdConfig::default(),
        interval_seconds: 7,
        window_capacity: 3,
    });
    assert_eq!(monitor.tick(Ok(reading(1.0))).sleep_seconds, 7);
    assert_eq!(monitor.tick(Err(SampleError::MalformedData)).sleep_seconds, 7);
    assert_eq!(monitor.observe(None).sleep_seconds, 7);
}

#[test]
fn window_evicts_while_the_monitor_runs() {
    let mut monitor = monitor_with(5.0, 15.0, 3);
    for percent in [20.0, 20.0, 20.0] {
        monitor.tick(Ok(reading(percent)));
    }
    let fourth = monitor.tick(Ok(reading(1.0)));
    assert_eq!(record_of(&fourth).samples, 3);
    assert_eq!(record_of(&fourth).average, Some(StealReading::from_micro_percent(13_666_666)));
    assert_eq!(record_of(&fourth).level, AlertLevel::Warning);
    monitor.tick(Ok(reading(1.0)));
    let sixth = monitor.tick(Ok(reading(1.0)));
    assert_eq!(record_of(&sixth).average, Some(reading(1.0)));
    assert_eq!(record_of(&sixth).level, AlertLevel::Normal);
    assert_eq!(sixth.alert, None);
}

#[test]
fn monitor_without_window_reports_no_average() {
    let mut monitor = monitor_with(5.0, 15.0, 0);
    let actions = monitor.tick(Ok(reading(50.0)));
    let record = record_of(&actions);
    assert_eq!(record.samples, 0);
    assert_eq!(record.average, None);
    assert_eq!(record.level, AlertLevel::Normal);
    assert_eq!(actions.alert, None);
}
