use steal_monitor::{SlidingWindow, StealReading};

fn units(values: &[u64]) -> Vec<StealReading> {
    values.iter().map(|value| StealReading::from_micro_percent(*value)).collect()
}

#[test]
fn new_window_is_empty() {
    let window = SlidingWindow::new(5);
    assert_eq!(window.capacity(), 5);
    assert_eq!(window.len(), 0);
    assert!(window.is_empty());
    assert_eq!(window.mean(), None);
    assert_eq!(window.total(), 0);
    assert_eq!(window.get(0), None);
    assert_eq!(window.readings(), Vec::new());
}

#[test]
fn window_fills_in_arrival_order() {
    let mut window = SlidingWindow::new(3);
    window.push(StealReading::from_micro_percent(10));
    window.push(StealReading::from_micro_percent(20));
    assert_eq!(window.len(), 2);
    assert!(!window.is_empty());
    assert_eq!(window.readings(), units(&[10, 20]));
    assert_eq!(window.get(0), Some(StealReading::from_micro_percent(10)));
    assert_eq!(window.get(1), Some(StealReading::from_micro_percent(20)));
    assert_eq!(window.get(2), None);
}

#[test]
fn one_reading_more_than_the_capacity_evicts_the_oldest() {
    let capacity = 4;
    let mut window = SlidingWindow::new(capacity);
    for value in [1, 2, 3, 4, 5] {
        window.push(StealReading::from_percent(value));
    }
    assert_eq!(window.len(), capacity);
    assert_eq!(
        window.readings(),
        vec![
            StealReading::from_percent(2),
            StealReading::from_percent(3),
            StealReading::from_percent(4),
            StealReading::from_percent(5),
        ]
    );
    assert_eq!(window.total(), 14_000_000);
    assert_eq!(window.mean(), Some(StealReading::from_micro_percent(3_500_000)));
}

#[test]
fn eviction_goes_on_first_in_first_out() {
    let mut window = SlidingWindow::new(2);
    for value in 1..=10 {
        window.push(StealReading::from_micro_percent(value));
        assert!(window.len() <= 2);
    }
    assert_eq!(window.readings(), units(&[9, 10]));
}

#[test]
fn mean_is_rounded_down_to_a_whole_unit() {
    let mut window = SlidingWindow::new(5);
    window.push(StealReading::from_micro_percent(1));
    window.push(StealReading::from_micro_percent(2));
    assert_eq!(window.mean(), Some(StealReading::from_micro_percent(1)));
    window.push(StealReading::from_micro_percent(2));
    assert_eq!(window.total(), 5);
    assert_eq!(window.mean(), Some(StealReading::from_micro_percent(1)));
    window.push(StealReading::from_micro_percent(3));
    assert_eq!(window.mean(), Some(StealReading::from_micro_percent(2)));
}

#[test]
fn window_of_one_holds_the_latest_reading() {
    let mut window = SlidingWindow::new(1);
    window.push(StealReading::from_percent(7));
    window.push(StealReading::from_percent(9));
    assert_eq!(window.readings(), vec![StealReading::from_percent(9)]);
    assert_eq!(window.mean(), Some(StealReading::from_percent(9)));
}

#[test]
fn window_without_capacity_stays_empty() {
    let mut window = SlidingWindow::new(0);
    window.push(StealReading::from_percent(7));
    assert_eq!(window.len(), 0);
    assert_eq!(window.mean(), None);
}

#[test]
fn sum_of_the_largest_readings_does_not_overflow() {
    let mut window = SlidingWindow::new(3);
    for _ in 0..3 {
        window.push(StealReading::from_micro_percent(u64::MAX));
    }
    assert_eq!(window.total(), 3 * (u64::MAX as u128));
    assert_eq!(window.mean(), Some(StealReading::from_micro_percent(u64::MAX)));
}
