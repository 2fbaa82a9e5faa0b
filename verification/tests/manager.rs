use satox_sdk::events::EventHandler;
use satox_sdk::lifecycle::{ThreadState, WaitStep};
use satox_sdk::resource::{Resource, ResourceKind};
use satox_sdk::thread_safe_manager::ThreadSafeManager;
use satox_sdk::tracker::ThreadSafeStats;
use serde_json::Value;
use std::cell::RefCell;
use std::rc::Rc;
use std::sync::Arc;
use std::time::Duration;

struct Recorder {
    fail: bool,
    seen: Rc<RefCell<Vec<Value>>>,
}

impl EventHandler for Recorder {
    fn handle(&self, payload: Value) -> Result<(), String> {
        if self.fail {
            Err("handler refused".to_string())
        } else {
            self.seen.borrow_mut().push(payload);
            Ok(())
        }
    }
}

fn manager() -> ThreadSafeManager<Recorder> {
    ThreadSafeManager::new("test")
}

#[test]
fn a_new_manager_is_uninitialized_and_empty() {
    let manager = manager();
    assert_eq!(manager.name(), "test");
    assert_eq!(manager.get_state(), Ok(ThreadState::Uninitialized));
    assert!(!manager.is_initialized());
    assert!(!manager.is_disposed());
    assert_eq!(manager.get_last_error(), "");
    assert_eq!(manager.get_error_count(), 0);
    assert_eq!(manager.get_stats(), Ok(ThreadSafeStats::default()));
    assert_eq!(manager.get_config("anything"), None);
    assert_eq!(manager.event_count("anything"), 0);
}

#[test]
fn operations_are_gated_by_the_lifecycle() {
    let mut manager = manager();
    assert_eq!(
        manager.ensure_initialized(),
        Err("Manager not initialized".to_string())
    );
    assert_eq!(manager.set_state(ThreadState::Initialized), Ok(()));
    assert_eq!(manager.ensure_initialized(), Ok(()));
    assert!(manager.is_initialized());
    assert_eq!(manager.set_state(ThreadState::Shutdown), Ok(()));
    assert_eq!(
        manager.ensure_initialized(),
        Err("Manager has been disposed".to_string())
    );
}

#[test]
fn a_disposed_manager_is_refused_as_disposed() {
    let mut manager = manager();
    manager.set_state(ThreadState::Initialized).unwrap();
    assert_eq!(manager.ensure_not_disposed(), Ok(()));
    manager.dispose().unwrap();
    assert!(manager.is_disposed());
    assert_eq!(
        manager.ensure_not_disposed(),
        Err("Manager has been disposed".to_string())
    );
    assert_eq!(manager.get_last_error(), "Manager has been disposed");
}

#[test]
fn a_refused_check_does_not_move_the_state() {
    let mut manager = manager();
    assert!(manager.ensure_initialized().is_err());
    assert_eq!(manager.get_state(), Ok(ThreadState::Uninitialized));
    manager.set_state(ThreadState::Shutdown).unwrap();
    let first = manager.ensure_not_disposed();
    let second = manager.ensure_not_disposed();
    assert_eq!(first, Err("Manager has been disposed".to_string()));
    assert_eq!(second, Err("Manager has been disposed".to_string()));
    assert_eq!(manager.get_state(), Ok(ThreadState::Shutdown));
    assert_eq!(manager.get_error_count(), 3);
}

#[test]
fn a_disposed_manager_has_no_way_back_through_checks() {
    let mut manager = manager();
    manager.set_state(ThreadState::Initialized).unwrap();
    manager.dispose().unwrap();
    assert_eq!(
        manager.ensure_initialized(),
        Err("Manager has been disposed".to_string())
    );
    assert_eq!(manager.get_state(), Ok(ThreadState::Shutdown));
    manager.clear_error();
    assert_eq!(manager.get_state(), Ok(ThreadState::Shutdown));
    assert_eq!(
        manager.ensure_initialized(),
        Err("Manager has been disposed".to_string())
    );
    manager.dispose().unwrap();
    assert!(manager.is_disposed());
    assert!(!manager.is_initialized());
}

#[test]
fn clearing_the_error_does_not_revive_a_disposed_manager() {
    let mut manager = manager();
    manager.set_state(ThreadState::Initialized).unwrap();
    manager.dispose().unwrap();
    manager.clear_error();
    assert_eq!(manager.get_state(), Ok(ThreadState::Shutdown));
    manager.dispose().unwrap();
    assert_eq!(manager.get_state(), Ok(ThreadState::Shutdown));
}

#[test]
fn the_error_state_is_recoverable() {
    let mut manager = manager();
    manager.set_state(ThreadState::Initialized).unwrap();
    manager.set_error("went wrong".to_string());
    assert_eq!(manager.get_state(), Ok(ThreadState::Error));
    assert_eq!(manager.get_error_count(), 1);
    assert_eq!(
        manager.ensure_initialized(),
        Err("Manager is in error state".to_string())
    );
    manager.clear_error();
    assert_eq!(manager.get_state(), Ok(ThreadState::Initialized));
    assert_eq!(manager.get_last_error(), "");
    assert_eq!(manager.ensure_initialized(), Ok(()));
}

#[test]
fn poll_for_state_decides_one_step() {
    let mut manager = manager();
    assert_eq!(
        manager.poll_for_state(ThreadState::Initialized, 0, 10),
        WaitStep::Retry
    );
    manager.set_state(ThreadState::Initialized).unwrap();
    assert_eq!(
        manager.poll_for_state(ThreadState::Initialized, 1, 10),
        WaitStep::Reached
    );
    assert_eq!(
        manager.poll_for_state(ThreadState::Initialized, 10, 10),
        WaitStep::TimedOut
    );
}

#[test]
fn begin_and_end_pairs_settle() {
    let mut manager = manager();
    for _ in 0..10 {
        let id = manager.begin_operation();
        assert_ne!(id, 0);
        manager.end_operation(id);
    }
    let stats = manager.get_stats().unwrap();
    assert_eq!(stats.concurrent_operations, 0);
    assert_eq!(stats.total_operations, 10);
    assert_eq!(stats.max_concurrent_operations, 1);
    assert_eq!(
        stats.average_operation_time,
        stats.total_operation_time / 10
    );
}

#[test]
fn operations_at_given_times_give_exact_statistics() {
    let mut manager = manager();
    let a = manager.begin_operation_at(1_000);
    let b = manager.begin_operation_at(2_000);
    manager.end_operation_at(a, 4_000);
    manager.end_operation_at(b, 9_000);
    let stats = manager.get_stats().unwrap();
    assert_eq!(a, 1);
    assert_eq!(b, 2);
    assert_eq!(stats.total_operations, 2);
    assert_eq!(stats.concurrent_operations, 0);
    assert_eq!(stats.max_concurrent_operations, 2);
    assert_eq!(stats.total_operation_time, 10_000);
    assert_eq!(stats.average_operation_time, 5_000);
    assert_eq!(stats.last_operation_time, 9_000);
    assert_eq!(stats.lock_contention_count, 0);
}

#[test]
fn disabled_monitoring_hands_out_the_sentinel() {
    let mut manager = manager();
    manager.disable_performance_monitoring();
    let id = manager.begin_operation();
    assert_eq!(id, 0);
    manager.end_operation(id);
    assert_eq!(manager.get_stats(), Ok(ThreadSafeStats::default()));
    manager.enable_performance_monitoring();
    assert_ne!(manager.begin_operation(), 0);
}

#[test]
fn reset_stats_starts_over() {
    let mut manager = manager();
    let id = manager.begin_operation_at(5);
    manager.end_operation_at(id, 6);
    assert_eq!(manager.reset_stats(), Ok(()));
    assert_eq!(manager.get_stats(), Ok(ThreadSafeStats::default()));
    assert_eq!(manager.begin_operation_at(7), 1);
}

#[test]
fn uptime_does_not_run_backwards() {
    let manager = manager();
    let first = manager.get_uptime();
    let second = manager.get_uptime();
    assert!(second >= first);
}

#[test]
fn configuration_is_stored_and_replaced() {
    let mut manager = manager();
    assert_eq!(manager.set_config("retries", Value::from(3)), Ok(()));
    assert_eq!(manager.get_config("retries"), Some(Value::from(3)));
    assert_eq!(manager.set_config("retries", Value::from("many")), Ok(()));
    assert_eq!(manager.get_config("retries"), Some(Value::from("many")));
    assert_eq!(manager.get_config("other"), None);
}

#[test]
fn cache_serves_until_expiry_at_given_times() {
    let mut manager = manager();
    let ten_seconds = 10_000_000_000u64;
    assert_eq!(
        manager.set_cache_at("k", Value::from("v"), ten_seconds, 100),
        Ok(())
    );
    assert_eq!(manager.get_cache_at("k", 100), Some(Value::from("v")));
    assert_eq!(manager.get_cache_at("k", 100 + ten_seconds), None);
    manager
        .set_cache_at("unrelated", Value::from(1), ten_seconds, 100 + ten_seconds)
        .unwrap();
    assert_eq!(manager.get_cache_at("k", 100 + ten_seconds), None);
    assert_eq!(manager.get_cache_at("k", 100), None);
}

#[test]
fn cache_on_the_clock_serves_a_fresh_value() {
    let mut manager = manager();
    manager
        .set_cache("k", Value::from("v"), Duration::from_secs(10))
        .unwrap();
    assert_eq!(manager.get_cache("k"), Some(Value::from("v")));
    assert_eq!(manager.get_cache("missing"), None);
}

#[test]
fn cache_on_the_clock_drops_a_value_without_time_to_live() {
    let mut manager = manager();
    manager
        .set_cache("k", Value::from("v"), Duration::from_secs(0))
        .unwrap();
    assert_eq!(manager.get_cache("k"), None);
}

#[test]
fn clear_cache_empties_it() {
    let mut manager = manager();
    manager.set_cache_at("k", Value::from(1), 100, 0).unwrap();
    assert_eq!(manager.clear_cache(), Ok(()));
    assert_eq!(manager.get_cache_at("k", 1), None);
}

#[test]
fn a_failing_handler_is_isolated() {
    let mut manager = manager();
    manager.set_state(ThreadState::Initialized).unwrap();
    let seen = Rc::new(RefCell::new(Vec::new()));
    let failing = Arc::new(Recorder {
        fail: true,
        seen: Rc::clone(&seen),
    });
    let recording = Arc::new(Recorder {
        fail: false,
        seen: Rc::clone(&seen),
    });
    manager.add_event_handler("x", failing).unwrap();
    manager.add_event_handler("x", recording).unwrap();
    let payload = Value::from("p");
    assert_eq!(manager.emit_event("x", payload.clone()), Ok(()));
    assert_eq!(*seen.borrow(), vec![payload]);
    assert_eq!(manager.get_error_count(), 1);
    assert_eq!(
        manager.get_last_error(),
        "Error in event handler: handler refused"
    );
    assert_eq!(manager.get_state(), Ok(ThreadState::Error));
    assert_eq!(manager.event_count("x"), 1);
}

#[test]
fn publishing_without_subscribers_is_a_no_op() {
    let mut manager = manager();
    manager.set_state(ThreadState::Initialized).unwrap();
    assert_eq!(manager.emit_event("nobody", Value::Null), Ok(()));
    assert_eq!(manager.event_count("nobody"), 0);
    assert_eq!(manager.get_error_count(), 0);
    assert_eq!(manager.get_state(), Ok(ThreadState::Initialized));
}

#[test]
fn every_publish_reaches_every_subscriber_once() {
    let mut manager = manager();
    let seen = Rc::new(RefCell::new(Vec::new()));
    for _ in 0..3 {
        let handler = Arc::new(Recorder {
            fail: false,
            seen: Rc::clone(&seen),
        });
        manager.add_event_handler("x", handler).unwrap();
    }
    manager.emit_event("x", Value::from(1)).unwrap();
    manager.emit_event("x", Value::from(2)).unwrap();
    assert_eq!(
        *seen.borrow(),
        vec![
            Value::from(1),
            Value::from(1),
            Value::from(1),
            Value::from(2),
            Value::from(2),
            Value::from(2)
        ]
    );
    assert_eq!(manager.event_count("x"), 2);
    assert_eq!(manager.get_error_count(), 0);
}

#[test]
fn removing_a_handler_out_of_range_is_no_error() {
    let mut manager = manager();
    let seen = Rc::new(RefCell::new(Vec::new()));
    let handler = Arc::new(Recorder {
        fail: false,
        seen: Rc::clone(&seen),
    });
    manager.add_event_handler("x", handler).unwrap();
    assert_eq!(manager.remove_event_handler("x", 5), Ok(()));
    assert_eq!(manager.remove_event_handler("unknown", 0), Ok(()));
    manager.emit_event("x", Value::Null).unwrap();
    assert_eq!(seen.borrow().len(), 1);
    assert_eq!(manager.remove_event_handler("x", 0), Ok(()));
    manager.emit_event("x", Value::Null).unwrap();
    assert_eq!(seen.borrow().len(), 1);
    assert_eq!(manager.event_count("x"), 2);
}

#[test]
fn the_steps_of_a_publish_can_be_taken_apart() {
    let mut manager = manager();
    let seen = Rc::new(RefCell::new(Vec::new()));
    let failing = Arc::new(Recorder {
        fail: true,
        seen: Rc::clone(&seen),
    });
    manager.add_event_handler("x", failing).unwrap();
    let snapshot = manager.begin_emit("x").unwrap();
    assert_eq!(manager.event_count("x"), 1);
    let outcomes = satox_sdk::events::dispatch(&snapshot, &Value::Null);
    assert_eq!(manager.get_error_count(), 0);
    manager.record_handler_outcomes(&outcomes);
    assert_eq!(manager.get_error_count(), 1);
    assert!(manager.begin_emit("unknown").is_none());
}

#[test]
fn resources_are_kind_checked() {
    let mut manager = manager();
    assert_eq!(manager.add_resource("r", Resource::Integer(5)), Ok(()));
    assert!(manager.get_resource("r", ResourceKind::Text).is_none());
    assert!(manager.get_resource("absent", ResourceKind::Text).is_none());
    let found = manager.get_resource("r", ResourceKind::Integer).unwrap();
    assert!(matches!(*found, Resource::Integer(5)));
    assert_eq!(manager.remove_resource("r"), Ok(()));
    assert!(manager.get_resource("r", ResourceKind::Integer).is_none());
    assert!(matches!(*found, Resource::Integer(5)));
}

#[test]
fn clear_resources_drops_all() {
    let mut manager = manager();
    manager.add_resource("a", Resource::Boolean(true)).unwrap();
    manager.add_resource("b", Resource::Unsigned(2)).unwrap();
    assert_eq!(manager.clear_resources(), Ok(()));
    assert!(manager.get_resource("a", ResourceKind::Boolean).is_none());
    assert!(manager.get_resource("b", ResourceKind::Unsigned).is_none());
}

#[test]
fn dispose_shuts_down_and_drops_cache_and_resources() {
    let mut manager = manager();
    manager.set_state(ThreadState::Initialized).unwrap();
    manager.set_cache_at("k", Value::from(1), 1_000, 0).unwrap();
    manager.add_resource("r", Resource::Unsigned(1)).unwrap();
    manager.set_config("c", Value::from(true)).unwrap();
    assert_eq!(manager.dispose(), Ok(()));
    assert_eq!(manager.get_state(), Ok(ThreadState::Shutdown));
    assert_eq!(manager.get_cache_at("k", 1), None);
    assert!(manager.get_resource("r", ResourceKind::Unsigned).is_none());
    assert_eq!(manager.get_config("c"), Some(Value::from(true)));
    assert_eq!(manager.get_error_count(), 0);
}

#[test]
fn dispose_of_a_disposed_manager_changes_nothing() {
    let mut manager = manager();
    manager.dispose().unwrap();
    manager.set_cache_at("k", Value::from(1), 1_000, 0).unwrap();
    assert_eq!(manager.dispose(), Ok(()));
    assert_eq!(manager.get_cache_at("k", 1), Some(Value::from(1)));
    assert_eq!(manager.get_state(), Ok(ThreadState::Shutdown));
}
