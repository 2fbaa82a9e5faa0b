use satox_sdk::tracker::{OperationTracker, ThreadSafeStats};

#[test]
fn default_stats_are_zero() {
    let stats = ThreadSafeStats::default();
    assert_eq!(stats.total_operations, 0);
    assert_eq!(stats.concurrent_operations, 0);
    assert_eq!(stats.max_concurrent_operations, 0);
    assert_eq!(stats.average_operation_time, 0);
    assert_eq!(stats.total_operation_time, 0);
    assert_eq!(stats.lock_contention_count, 0);
    assert_eq!(stats.last_operation_time, 0);
}

#[test]
fn new_tracker_is_enabled_and_empty() {
    let tracker = OperationTracker::new();
    assert!(tracker.is_enabled());
    assert_eq!(tracker.get_stats(), ThreadSafeStats::default());
}

#[test]
fn ids_are_non_zero_and_increase() {
    let mut tracker = OperationTracker::new();
    let first = tracker.begin_operation_at(10);
    let second = tracker.begin_operation_at(11);
    let third = tracker.begin_operation_at(12);
    assert_eq!(first, 1);
    assert_eq!(second, 2);
    assert_eq!(third, 3);
}

#[test]
fn completed_pairs_settle_to_zero_in_flight() {
    let mut tracker = OperationTracker::new();
    for round in 0..25u64 {
        let id = tracker.begin_operation_at(round * 10);
        assert_ne!(id, 0);
        tracker.end_operation_at(id, round * 10 + 4);
    }
    let stats = tracker.get_stats();
    assert_eq!(stats.concurrent_operations, 0);
    assert_eq!(stats.total_operations, 25);
    assert_eq!(stats.max_concurrent_operations, 1);
    assert_eq!(stats.total_operation_time, 100);
    assert_eq!(stats.average_operation_time, 4);
    assert_eq!(stats.last_operation_time, 244);
}

#[test]
fn high_water_mark_is_the_peak_at_every_observation() {
    let mut tracker = OperationTracker::new();
    let a = tracker.begin_operation_at(0);
    assert_eq!(tracker.get_stats().concurrent_operations, 1);
    assert_eq!(tracker.get_stats().max_concurrent_operations, 1);
    let b = tracker.begin_operation_at(1);
    let c = tracker.begin_operation_at(2);
    assert_eq!(tracker.get_stats().concurrent_operations, 3);
    assert_eq!(tracker.get_stats().max_concurrent_operations, 3);
    tracker.end_operation_at(b, 3);
    assert_eq!(tracker.get_stats().concurrent_operations, 2);
    assert_eq!(tracker.get_stats().max_concurrent_operations, 3);
    let d = tracker.begin_operation_at(4);
    assert_eq!(tracker.get_stats().concurrent_operations, 3);
    assert_eq!(tracker.get_stats().max_concurrent_operations, 3);
    let e = tracker.begin_operation_at(5);
    assert_eq!(tracker.get_stats().concurrent_operations, 4);
    assert_eq!(tracker.get_stats().max_concurrent_operations, 4);
    for id in [a, c, d, e] {
        tracker.end_operation_at(id, 6);
        let stats = tracker.get_stats();
        assert!(stats.max_concurrent_operations >= stats.concurrent_operations);
        assert_eq!(stats.max_concurrent_operations, 4);
    }
    assert_eq!(tracker.get_stats().concurrent_operations, 0);
    assert_eq!(tracker.get_stats().total_operations, 5);
}

#[test]
fn average_is_total_over_count_rounded_down() {
    let mut tracker = OperationTracker::new();
    let a = tracker.begin_operation_at(100);
    tracker.end_operation_at(a, 110);
    let b = tracker.begin_operation_at(200);
    tracker.end_operation_at(b, 205);
    let stats = tracker.get_stats();
    assert_eq!(stats.total_operation_time, 15);
    assert_eq!(stats.total_operations, 2);
    assert_eq!(stats.average_operation_time, 7);
    assert_eq!(stats.last_operation_time, 205);
}

#[test]
fn ending_id_zero_changes_nothing() {
    let mut tracker = OperationTracker::new();
    let id = tracker.begin_operation_at(1);
    let before = tracker.get_stats();
    tracker.end_operation_at(0, 50);
    assert_eq!(tracker.get_stats(), before);
    tracker.end_operation_at(id, 2);
    assert_eq!(tracker.get_stats().total_operations, 1);
}

#[test]
fn an_id_that_is_not_open_counts_with_zero_duration() {
    let mut tracker = OperationTracker::new();
    let a = tracker.begin_operation_at(10);
    let _b = tracker.begin_operation_at(20);
    tracker.end_operation_at(a, 30);
    tracker.end_operation_at(a, 90);
    let stats = tracker.get_stats();
    assert_eq!(stats.total_operations, 2);
    assert_eq!(stats.total_operation_time, 20);
    assert_eq!(stats.average_operation_time, 10);
    assert_eq!(stats.concurrent_operations, 0);
    assert_eq!(stats.last_operation_time, 90);
}

#[test]
fn a_clock_that_reads_less_gives_zero_duration() {
    let mut tracker = OperationTracker::new();
    let a = tracker.begin_operation_at(500);
    tracker.end_operation_at(a, 100);
    let stats = tracker.get_stats();
    assert_eq!(stats.total_operation_time, 0);
    assert_eq!(stats.total_operations, 1);
}

#[test]
fn disabled_tracker_hands_out_zero_and_counts_nothing() {
    let mut tracker = OperationTracker::new();
    tracker.disable_performance_monitoring();
    assert!(!tracker.is_enabled());
    let id = tracker.begin_operation_at(5);
    assert_eq!(id, 0);
    tracker.end_operation_at(id, 9);
    assert_eq!(tracker.get_stats(), ThreadSafeStats::default());
    tracker.enable_performance_monitoring();
    assert_eq!(tracker.begin_operation_at(10), 1);
}

#[test]
fn an_operation_begun_while_enabled_ends_after_disabling() {
    let mut tracker = OperationTracker::new();
    let id = tracker.begin_operation_at(0);
    tracker.disable_performance_monitoring();
    tracker.end_operation_at(id, 7);
    let stats = tracker.get_stats();
    assert_eq!(stats.concurrent_operations, 0);
    assert_eq!(stats.total_operations, 1);
    assert_eq!(stats.total_operation_time, 7);
}

#[test]
fn reset_forgets_statistics_and_ids() {
    let mut tracker = OperationTracker::new();
    let a = tracker.begin_operation_at(1);
    let _b = tracker.begin_operation_at(2);
    tracker.end_operation_at(a, 3);
    tracker.reset_stats();
    assert_eq!(tracker.get_stats(), ThreadSafeStats::default());
    assert!(tracker.is_enabled());
    assert_eq!(tracker.begin_operation_at(4), 1);
}

#[test]
fn large_durations_add_up_without_loss() {
    let mut tracker = OperationTracker::new();
    let a = tracker.begin_operation_at(0);
    tracker.end_operation_at(a, u64::MAX);
    let b = tracker.begin_operation_at(0);
    tracker.end_operation_at(b, u64::MAX);
    let stats = tracker.get_stats();
    assert_eq!(stats.total_operation_time, 2 * (u64::MAX as u128));
    assert_eq!(stats.average_operation_time, u64::MAX as u128);
}
