//! The manager that domain wrappers embed: lifecycle, statistics, cache,
//! events, resources and configuration behind one value.

use crate::cache::{after_lookup, lookup, stored, CacheEntry, CacheView, ExpiringCache};
use crate::clock::{anchor, clamped, duration_nanos, is_reading, nanos_of, nanos_since};
use crate::events::{dispatch, handled, snapshot_view, EventBus, EventBusView, EventHandler};
use crate::lifecycle::{
    admission_failure, check_outcome, disposal_failure, disposed_message, lemma_single_failure,
    wait_decision, LifecycleView, StateController, ThreadState, WaitStep,
};
use crate::resource::{handle_view, retrieve, RegistryView, Resource, ResourceKind, ResourceRegistry};
use crate::tracker::{OperationTracker, ThreadSafeStats, TrackerView};
use serde_json::Value;
use std::sync::Arc;
use std::time::Duration;
use std::time::Instant;
use vstd::hash_map::StringHashMap;
use vstd::prelude::*;

verus! {

/// What a `ThreadSafeManager` holds, as mathematical values.
#[verifier::reject_recursive_types(H)]
pub struct ManagerView<H> {
    /// The diagnostic name.
    pub name: Seq<char>,
    pub lifecycle: LifecycleView,
    pub tracker: TrackerView,
    pub events: EventBusView<H>,
    pub resources: RegistryView,
    pub config: Map<Seq<char>, Value>,
    pub cache: CacheView,
}

impl<H> ManagerView<H> {
    /// A manager that has seen nothing.
    pub open spec fn initial(name: Seq<char>) -> ManagerView<H> {
        ManagerView {
            name,
            lifecycle: LifecycleView::initial(),
            tracker: TrackerView::initial(),
            events: EventBusView::initial(),
            resources: Map::empty(),
            config: Map::empty(),
            cache: Map::empty(),
        }
    }

    /// What every manager satisfies.
    pub open spec fn wf(self) -> bool {
        self.tracker.wf()
    }

    /// The manager after a publish of `event` whose handlers returned
    /// `outcomes`: the publish is counted, the failures are recorded.
    pub open spec fn emitted(self, event: Seq<char>, outcomes: Seq<Result<(), String>>) -> ManagerView<
        H,
    > {
        ManagerView {
            events: self.events.publish(event),
            lifecycle: self.lifecycle.after_outcomes(outcomes),
            ..self
        }
    }

    /// The manager after disposal: shut down, with cache and resources
    /// dropped; a manager that is shut down already stays as it is.
    pub open spec fn disposed(self) -> ManagerView<H> {
        if self.lifecycle.state == ThreadState::Shutdown {
            self
        } else {
            ManagerView {
                lifecycle: self.lifecycle.with_state(ThreadState::Shutdown),
                cache: Map::empty(),
                resources: Map::empty(),
                ..self
            }
        }
    }
}

/// The steps of a manager that look at its state without being told to
/// change it, and disposal.
pub enum ManagerStep {
    EnsureInitialized,
    EnsureNotDisposed,
    ClearError,
    Dispose,
}

impl<H> ManagerView<H> {
    /// The manager after one such step.
    pub open spec fn after_step(self, step: ManagerStep) -> ManagerView<H> {
        match step {
            ManagerStep::EnsureInitialized => ManagerView {
                lifecycle: self.lifecycle.after_check(admission_failure(self.lifecycle.state)),
                ..self
            },
            ManagerStep::EnsureNotDisposed => ManagerView {
                lifecycle: self.lifecycle.after_check(disposal_failure(self.lifecycle.state)),
                ..self
            },
            ManagerStep::ClearError => ManagerView {
                lifecycle: self.lifecycle.clear_error(),
                ..self
            },
            ManagerStep::Dispose => self.disposed(),
        }
    }

    /// The manager after every step of `steps`, first to last.
    pub open spec fn after_steps(self, steps: Seq<ManagerStep>) -> ManagerView<H>
        decreases steps.len(),
    {
        if steps.len() == 0 {
            self
        } else {
            self.after_steps(steps.drop_last()).after_step(steps.last())
        }
    }

    /// A manager that is shut down stays shut down through checks,
    /// clearings of the error slot and disposals, in any number and order;
    /// both checks refuse it as disposed after them as before, and nothing
    /// but its error slot has changed.
    pub proof fn lemma_shutdown_is_settled(self, steps: Seq<ManagerStep>)
        requires
            self.lifecycle.state == ThreadState::Shutdown,
        ensures
            self.after_steps(steps).lifecycle.state == ThreadState::Shutdown,
            admission_failure(self.after_steps(steps).lifecycle.state) == Some(disposed_message()),
            disposal_failure(self.after_steps(steps).lifecycle.state) == Some(disposed_message()),
            self.after_steps(steps) == (ManagerView {
                lifecycle: self.after_steps(steps).lifecycle,
                ..self
            }),
        decreases steps.len(),
    {
        if steps.len() > 0 {
            self.lemma_shutdown_is_settled(steps.drop_last());
        }
    }

    /// A disposed manager is shut down, and stays so through checks,
    /// clearings of the error slot and further disposals, in any number and
    /// order.
    pub proof fn lemma_disposed_is_settled(self, steps: Seq<ManagerStep>)
        ensures
            self.disposed().lifecycle.state == ThreadState::Shutdown,
            self.disposed().disposed() == self.disposed(),
            self.disposed().after_steps(steps).lifecycle.state == ThreadState::Shutdown,
            admission_failure(self.disposed().after_steps(steps).lifecycle.state) == Some(
                disposed_message(),
            ),
            disposal_failure(self.disposed().after_steps(steps).lifecycle.state) == Some(
                disposed_message(),
            ),
    {
        self.disposed().lemma_shutdown_is_settled(steps);
    }
}

/// A publish to subscribers of which one always fails and the others never
/// do: every other subscriber has returned without failure, the publish is
/// counted once, and the error counter is one higher, where that is within
/// the width of `u64`. `outcomes` is what the subscribers returned.
pub proof fn lemma_failing_subscriber_is_isolated<H: EventHandler>(
    before: ManagerView<H>,
    event: Seq<char>,
    data: Value,
    outcomes: Seq<Result<(), String>>,
    failing: int,
)
    requires
        before.events.can_publish(event),
        before.lifecycle.error_count < u64::MAX,
        outcomes.len() == before.events.subscribers(event).len(),
        forall|i: int|
            0 <= i < outcomes.len() ==> handled(
                *before.events.subscribers(event)[i],
                data,
                #[trigger] outcomes[i],
            ),
        0 <= failing < outcomes.len(),
        forall|outcome: Result<(), String>|
            #[trigger] handled(*before.events.subscribers(event)[failing], data, outcome)
                ==> outcome is Err,
        forall|i: int, outcome: Result<(), String>|
            0 <= i < outcomes.len() && i != failing && #[trigger] handled(
                *before.events.subscribers(event)[i],
                data,
                outcome,
            ) ==> outcome is Ok,
    ensures
        forall|i: int| 0 <= i < outcomes.len() && i != failing ==> (#[trigger] outcomes[i]) is Ok,
        before.emitted(event, outcomes).lifecycle.error_count == before.lifecycle.error_count
            + 1,
        before.emitted(event, outcomes).lifecycle.state == ThreadState::Error,
        before.emitted(event, outcomes).events.count_of(event) == before.events.count_of(event)
            + 1,
{
    lemma_single_failure(outcomes, failing);
    before.lifecycle.lemma_failures_are_counted(outcomes);
}

/// The manager that domain wrappers embed. `H` is the type of its event
/// subscribers.
#[verifier::reject_recursive_types(H)]
pub struct ThreadSafeManager<H> {
    name: String,
    lifecycle: StateController,
    tracker: OperationTracker,
    events: EventBus<H>,
    resources: ResourceRegistry,
    config: StringHashMap<Value>,
    cache: ExpiringCache,
    start_time: Instant,
}

impl<H> View for ThreadSafeManager<H> {
    type V = ManagerView<H>;

    closed spec fn view(&self) -> ManagerView<H> {
        ManagerView {
            name: self.name@,
            lifecycle: self.lifecycle@,
            tracker: self.tracker@,
            events: self.events@,
            resources: self.resources@,
            config: self.config@,
            cache: self.cache@,
        }
    }
}

impl<H> ThreadSafeManager<H> {
    /// A manager named `name`: uninitialized, instrumented, and empty. Its
    /// clock starts now.
    pub fn new(name: &str) -> (manager: ThreadSafeManager<H>)
        ensures
            manager@ == ManagerView::<H>::initial(name@),
            manager@.wf(),
    {
        ThreadSafeManager {
            name: name.to_owned(),
            lifecycle: StateController::new(),
            tracker: OperationTracker::new(),
            events: EventBus::new(),
            resources: ResourceRegistry::new(),
            config: StringHashMap::new(),
            cache: ExpiringCache::new(),
            start_time: anchor(),
        }
    }

    /// The diagnostic name.
    pub fn name(&self) -> (name: String)
        ensures
            name@ == self@.name,
    {
        self.name.clone()
    }

    /// Admits an operation unless the state is `Uninitialized`, `Shutdown`
    /// or `Error`. A refusal is returned to the caller; it leaves its
    /// message and advances the error counter. The state is never moved.
    pub fn ensure_initialized(&mut self) -> (result: Result<(), String>)
        ensures
            check_outcome(result, admission_failure(old(self)@.lifecycle.state)),
            final(self)@.lifecycle.state == old(self)@.lifecycle.state,
            final(self)@ == old(self)@.after_step(ManagerStep::EnsureInitialized),
    {
        self.lifecycle.ensure_initialized()
    }

    /// Admits an operation unless the state is `Shutdown`. A refusal is
    /// returned to the caller; it leaves its message and advances the error
    /// counter. The state is never moved.
    pub fn ensure_not_disposed(&mut self) -> (result: Result<(), String>)
        ensures
            check_outcome(result, disposal_failure(old(self)@.lifecycle.state)),
            final(self)@.lifecycle.state == old(self)@.lifecycle.state,
            final(self)@ == old(self)@.after_step(ManagerStep::EnsureNotDisposed),
    {
        self.lifecycle.ensure_not_disposed()
    }

    /// Overwrites the state.
    pub fn set_state(&mut self, state: ThreadState) -> (result: Result<(), String>)
        ensures
            result is Ok,
            final(self)@ == (ManagerView {
                lifecycle: old(self)@.lifecycle.with_state(state),
                ..old(self)@
            }),
    {
        self.lifecycle.set_state(state);
        Ok(())
    }

    /// The current state.
    pub fn get_state(&self) -> (result: Result<ThreadState, String>)
        ensures
            result == Ok::<ThreadState, String>(self@.lifecycle.state),
    {
        Ok(self.lifecycle.get_state())
    }

    /// One poll of a bounded wait for `target_state`, `elapsed` nanoseconds
    /// into a wait that may last `timeout` nanoseconds. The caller sleeps
    /// between polls.
    pub fn poll_for_state(&self, target_state: ThreadState, elapsed: u64, timeout: u64) -> (step:
        WaitStep)
        ensures
            step == wait_decision(self@.lifecycle.state, target_state, elapsed, timeout),
    {
        self.lifecycle.poll_for_state(target_state, elapsed, timeout)
    }

    /// Whether an operation can begin without a counter leaving its range.
    pub fn can_begin_operation(&self) -> (yes: bool)
        ensures
            yes == self@.tracker.can_begin(),
    {
        self.tracker.can_begin()
    }

    /// Whether operation `operation_id` can end without a counter leaving
    /// its range.
    pub fn can_end_operation(&self, operation_id: u64) -> (yes: bool)
        ensures
            yes == self@.tracker.can_end(operation_id),
    {
        self.tracker.can_end(operation_id)
    }

    /// Begins an operation at clock reading `now`; see
    /// `OperationTracker::begin_operation_at`.
    pub fn begin_operation_at(&mut self, now: u64) -> (id: u64)
        requires
            old(self)@.tracker.can_begin(),
        ensures
            id == old(self)@.tracker.begin_id(),
            old(self)@.tracker.enabled ==> id != 0 && !old(self)@.tracker.open.contains_key(id),
            final(self)@ == (ManagerView { tracker: old(self)@.tracker.begin(now), ..old(self)@ }),
            final(self)@.wf(),
    {
        self.tracker.begin_operation_at(now)
    }

    /// Begins an operation now, on the manager's own clock.
    pub fn begin_operation(&mut self) -> (id: u64)
        requires
            old(self)@.tracker.can_begin(),
        ensures
            id == old(self)@.tracker.begin_id(),
            old(self)@.tracker.enabled ==> id != 0 && !old(self)@.tracker.open.contains_key(id),
            exists|now: u64|
                is_reading(now) && final(self)@ == (ManagerView {
                    tracker: #[trigger] old(self)@.tracker.begin(now),
                    ..old(self)@
                }),
            final(self)@.wf(),
    {
        let now: u64 = nanos_since(&self.start_time);
        self.begin_operation_at(now)
    }

    /// Ends operation `operation_id` at clock reading `now`; see
    /// `OperationTracker::end_operation_at`.
    pub fn end_operation_at(&mut self, operation_id: u64, now: u64)
        requires
            old(self)@.tracker.can_end(operation_id),
        ensures
            final(self)@ == (ManagerView {
                tracker: old(self)@.tracker.end(operation_id, now),
                ..old(self)@
            }),
            final(self)@.wf(),
    {
        self.tracker.end_operation_at(operation_id, now)
    }

    /// Ends operation `operation_id` now, on the manager's own clock.
    pub fn end_operation(&mut self, operation_id: u64)
        requires
            old(self)@.tracker.can_end(operation_id),
        ensures
            exists|now: u64|
                is_reading(now) && final(self)@ == (ManagerView {
                    tracker: #[trigger] old(self)@.tracker.end(operation_id, now),
                    ..old(self)@
                }),
            final(self)@.wf(),
    {
        let now: u64 = nanos_since(&self.start_time);
        self.end_operation_at(operation_id, now)
    }

    /// Records `error`, advances the error counter and forces the state to
    /// `Error`.
    pub fn set_error(&mut self, error: String)
        ensures
            final(self)@ == (ManagerView {
                lifecycle: old(self)@.lifecycle.record_error(error@),
                ..old(self)@
            }),
    {
        self.lifecycle.set_error(error)
    }

    /// Wipes the error message and, from `Error` only, returns to
    /// `Initialized`.
    pub fn clear_error(&mut self)
        ensures
            final(self)@ == old(self)@.after_step(ManagerStep::ClearError),
    {
        self.lifecycle.clear_error()
    }

    /// The last recorded error message, empty if none.
    pub fn get_last_error(&self) -> (message: String)
        ensures
            message@ == self@.lifecycle.last_error,
    {
        self.lifecycle.get_last_error()
    }

    /// How many errors were recorded.
    pub fn get_error_count(&self) -> (count: u64)
        ensures
            count == self@.lifecycle.error_count,
    {
        self.lifecycle.get_error_count()
    }

    /// Whether the state is `Initialized`.
    pub fn is_initialized(&self) -> (yes: bool)
        ensures
            yes == (self@.lifecycle.state == ThreadState::Initialized),
    {
        self.lifecycle.is_initialized()
    }

    /// Whether the state is `Shutdown`.
    pub fn is_disposed(&self) -> (yes: bool)
        ensures
            yes == (self@.lifecycle.state == ThreadState::Shutdown),
    {
        self.lifecycle.is_disposed()
    }

    /// A copy of the statistics.
    pub fn get_stats(&self) -> (result: Result<ThreadSafeStats, String>)
        ensures
            result == Ok::<ThreadSafeStats, String>(self@.tracker.stats),
            self@.wf(),
    {
        Ok(self.tracker.get_stats())
    }

    /// Forgets statistics, open operations and operation ids.
    pub fn reset_stats(&mut self) -> (result: Result<(), String>)
        ensures
            result is Ok,
            final(self)@ == (ManagerView { tracker: old(self)@.tracker.reset(), ..old(self)@ }),
            final(self)@.wf(),
    {
        self.tracker.reset_stats();
        Ok(())
    }

    /// Switches instrumentation on.
    pub fn enable_performance_monitoring(&mut self)
        ensures
            final(self)@ == (ManagerView {
                tracker: old(self)@.tracker.with_enabled(true),
                ..old(self)@
            }),
    {
        self.tracker.enable_performance_monitoring()
    }

    /// Switches instrumentation off: operations begun from now on get id 0.
    pub fn disable_performance_monitoring(&mut self)
        ensures
            final(self)@ == (ManagerView {
                tracker: old(self)@.tracker.with_enabled(false),
                ..old(self)@
            }),
    {
        self.tracker.disable_performance_monitoring()
    }

    /// Nanoseconds since the manager was made, on its own clock: a reading
    /// of the clock that times its operations and its cache.
    pub fn get_uptime(&self) -> (nanos: u64)
        ensures
            is_reading(nanos),
    {
        nanos_since(&self.start_time)
    }

    /// Stores a configuration value under `key`, in place of what was there.
    pub fn set_config(&mut self, key: &str, value: Value) -> (result: Result<(), String>)
        ensures
            result is Ok,
            final(self)@ == (ManagerView {
                config: old(self)@.config.insert(key@, value),
                ..old(self)@
            }),
    {
        self.config.insert(key.to_owned(), value);
        Ok(())
    }

    /// The configuration value under `key`, if there is one.
    pub fn get_config(&self, key: &str) -> (found: Option<Value>)
        ensures
            found == if self@.config.contains_key(key@) {
                Some(self@.config[key@])
            } else {
                None
            },
    {
        match self.config.get(key) {
            Some(value) => Some(value.clone()),
            None => None,
        }
    }

    /// Caches `value` under `key` at clock reading `now`, to be served for
    /// `ttl` nanoseconds; see `ExpiringCache::set_at`.
    pub fn set_cache_at(&mut self, key: &str, value: Value, ttl: u64, now: u64) -> (result: Result<
        (),
        String,
    >)
        ensures
            result is Ok,
            final(self)@ == (ManagerView {
                cache: stored(old(self)@.cache, key@, value, ttl, now),
                ..old(self)@
            }),
    {
        self.cache.set_at(key, value, ttl, now);
        Ok(())
    }

    /// Caches `value` under `key` now, on the manager's own clock, to be
    /// served for `ttl`.
    pub fn set_cache(&mut self, key: &str, value: Value, ttl: Duration) -> (result: Result<
        (),
        String,
    >)
        ensures
            result is Ok,
            exists|now: u64|
                is_reading(now) && final(self)@ == (ManagerView {
                    cache: #[trigger] stored(
                        old(self)@.cache,
                        key@,
                        value,
                        clamped(nanos_of(ttl)),
                        now,
                    ),
                    ..old(self)@
                }),
    {
        let now: u64 = nanos_since(&self.start_time);
        let ttl_nanos: u64 = duration_nanos(&ttl);
        self.set_cache_at(key, value, ttl_nanos, now)
    }

    /// Reads `key` from the cache at clock reading `now`; see
    /// `ExpiringCache::get_at`.
    pub fn get_cache_at(&mut self, key: &str, now: u64) -> (found: Option<Value>)
        ensures
            found == lookup(old(self)@.cache, key@, now),
            final(self)@ == (ManagerView {
                cache: after_lookup(old(self)@.cache, key@, now),
                ..old(self)@
            }),
    {
        self.cache.get_at(key, now)
    }

    /// Reads `key` from the cache now, on the manager's own clock.
    pub fn get_cache(&mut self, key: &str) -> (found: Option<Value>)
        ensures
            exists|now: u64|
                is_reading(now) && found == #[trigger] lookup(old(self)@.cache, key@, now)
                    && final(self)@
                    == (ManagerView {
                    cache: after_lookup(old(self)@.cache, key@, now),
                    ..old(self)@
                }),
    {
        let now: u64 = nanos_since(&self.start_time);
        self.get_cache_at(key, now)
    }

    /// Empties the cache.
    pub fn clear_cache(&mut self) -> (result: Result<(), String>)
        ensures
            result is Ok,
            final(self)@ == (ManagerView {
                cache: Map::<Seq<char>, CacheEntry>::empty(),
                ..old(self)@
            }),
    {
        self.cache.clear();
        Ok(())
    }

    /// Subscribes `handler` to `event`, behind the subscribers it has.
    pub fn add_event_handler(&mut self, event: &str, handler: Arc<H>) -> (result: Result<
        (),
        String,
    >)
        ensures
            result is Ok,
            final(self)@ == (ManagerView {
                events: old(self)@.events.subscribe(event@, handler),
                ..old(self)@
            }),
    {
        self.events.subscribe(event, handler);
        Ok(())
    }

    /// Removes the subscriber at position `handler_index` of `event`.
    /// Without such a subscriber nothing happens, and that is no error.
    pub fn remove_event_handler(&mut self, event: &str, handler_index: usize) -> (result: Result<
        (),
        String,
    >)
        ensures
            result is Ok,
            final(self)@ == (ManagerView {
                events: old(self)@.events.unsubscribe(event@, handler_index as int),
                ..old(self)@
            }),
    {
        self.events.unsubscribe(event, handler_index);
        Ok(())
    }

    /// Whether `event` can be published without its counter leaving its
    /// range.
    pub fn can_emit(&self, event: &str) -> (yes: bool)
        ensures
            yes == self@.events.can_publish(event@),
    {
        self.events.can_publish(event)
    }

    /// Starts a publish of `event`: counts it and returns the handlers to
    /// dispatch to, as they stand now; see `EventBus::begin_publish`.
    pub fn begin_emit(&mut self, event: &str) -> (snapshot: Option<Vec<Arc<H>>>)
        requires
            old(self)@.events.can_publish(event@),
        ensures
            snapshot_view(snapshot) == old(self)@.events.snapshot(event@),
            final(self)@ == (ManagerView { events: old(self)@.events.publish(event@), ..old(self)@ }),
    {
        self.events.begin_publish(event)
    }

    /// Records what the handlers of a publish returned; see
    /// `StateController::record_outcomes`.
    pub fn record_handler_outcomes(&mut self, outcomes: &Vec<Result<(), String>>)
        ensures
            final(self)@ == (ManagerView {
                lifecycle: old(self)@.lifecycle.after_outcomes(outcomes@),
                ..old(self)@
            }),
    {
        self.lifecycle.record_outcomes(outcomes)
    }

    /// How often `event` was published.
    pub fn event_count(&self, event: &str) -> (count: u64)
        ensures
            count == self@.events.count_of(event@),
    {
        self.events.event_count(event)
    }

    /// Stores `resource` under `name`, in place of what was there.
    pub fn add_resource(&mut self, name: &str, resource: Resource) -> (result: Result<(), String>)
        ensures
            result is Ok,
            final(self)@ == (ManagerView {
                resources: old(self)@.resources.insert(name@, resource),
                ..old(self)@
            }),
    {
        self.resources.put(name, resource);
        Ok(())
    }

    /// A shared handle to the resource under `name` if it is of `kind`;
    /// nothing if the name is unused or the resource is of another kind.
    pub fn get_resource(&self, name: &str, kind: ResourceKind) -> (found: Option<Arc<Resource>>)
        ensures
            handle_view(found) == retrieve(self@.resources, name@, kind),
    {
        self.resources.get(name, kind)
    }

    /// Drops the resource under `name`; handles given out stay valid.
    pub fn remove_resource(&mut self, name: &str) -> (result: Result<(), String>)
        ensures
            result is Ok,
            final(self)@ == (ManagerView {
                resources: old(self)@.resources.remove(name@),
                ..old(self)@
            }),
    {
        self.resources.remove(name);
        Ok(())
    }

    /// Drops every resource; handles given out stay valid.
    pub fn clear_resources(&mut self) -> (result: Result<(), String>)
        ensures
            result is Ok,
            final(self)@ == (ManagerView {
                resources: Map::<Seq<char>, Resource>::empty(),
                ..old(self)@
            }),
    {
        self.resources.clear();
        Ok(())
    }

    /// Shuts the manager down and drops its cache and resources. Disposing
    /// of a manager that is shut down changes nothing.
    pub fn dispose(&mut self) -> (result: Result<(), String>)
        ensures
            result is Ok,
            final(self)@ == old(self)@.disposed(),
    {
        if self.lifecycle.is_disposed() {
            return Ok(());
        }
        self.lifecycle.set_state(ThreadState::ShuttingDown);
        self.cache.clear();
        self.resources.clear();
        self.lifecycle.set_state(ThreadState::Shutdown);
        Ok(())
    }
}

impl<H: EventHandler> ThreadSafeManager<H> {
    /// Publishes `data` to the subscribers of `event`, in subscription
    /// order. The publish is counted once. A subscriber that fails is
    /// recorded as an error, which puts the manager in `Error`; it neither
    /// stops the later subscribers nor fails the publish. An event that was
    /// never subscribed to is not counted.
    pub fn emit_event(&mut self, event: &str, data: Value) -> (result: Result<(), String>)
        requires
            old(self)@.events.can_publish(event@),
        ensures
            result is Ok,
            exists|outcomes: Seq<Result<(), String>>|
                {
                    &&& outcomes.len() == old(self)@.events.subscribers(event@).len()
                    &&& forall|i: int|
                        0 <= i < outcomes.len() ==> handled(
                            *old(self)@.events.subscribers(event@)[i],
                            data,
                            #[trigger] outcomes[i],
                        )
                    &&& final(self)@ == old(self)@.emitted(event@, outcomes)
                },
    {
        match self.begin_emit(event) {
            Some(handlers) => {
                let outcomes = dispatch(&handlers, &data);
                self.record_handler_outcomes(&outcomes);
                proof {
                    let ghost seen = outcomes@;
                    assert(self@ == old(self)@.emitted(event@, seen));
                }
            },
            None => {
                proof {
                    let ghost seen = Seq::<Result<(), String>>::empty();
                    assert(self@ == old(self)@.emitted(event@, seen));
                }
            },
        }
        Ok(())
    }
}

} // verus!
