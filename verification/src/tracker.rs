//! Begin/end instrumentation of operations and the statistics it keeps.
//!
//! Times are whole nanoseconds on the owner's clock.

use vstd::hash_map::HashMapWithView;
use vstd::prelude::*;

verus! {

broadcast use vstd::std_specs::hash::axiom_u64_obeys_hash_table_key_model;

/// Aggregate statistics of the operations of one manager.
#[derive(Debug, Clone, Copy, PartialEq, Eq, Structural)]
pub struct ThreadSafeStats {
    /// Operations that have ended.
    pub total_operations: u64,
    /// Operations that have begun and not ended.
    pub concurrent_operations: u64,
    /// The highest value `concurrent_operations` has had.
    pub max_concurrent_operations: u64,
    /// `total_operation_time / total_operations`, rounded down; 0 before
    /// the first operation ends.
    pub average_operation_time: u128,
    /// Sum of the durations of the ended operations.
    pub total_operation_time: u128,
    /// Times a lock was found taken; nothing in this crate contends.
    pub lock_contention_count: u64,
    /// Clock reading at which the last operation ended.
    pub last_operation_time: u64,
}

impl ThreadSafeStats {
    /// Statistics of a tracker that has seen nothing.
    pub open spec fn zero() -> ThreadSafeStats {
        ThreadSafeStats {
            total_operations: 0,
            concurrent_operations: 0,
            max_concurrent_operations: 0,
            average_operation_time: 0,
            total_operation_time: 0,
            lock_contention_count: 0,
            last_operation_time: 0,
        }
    }
}

impl Default for ThreadSafeStats {
    fn default() -> (stats: ThreadSafeStats)
        ensures
            stats == ThreadSafeStats::zero(),
    {
        ThreadSafeStats {
            total_operations: 0,
            concurrent_operations: 0,
            max_concurrent_operations: 0,
            average_operation_time: 0,
            total_operation_time: 0,
            lock_contention_count: 0,
            last_operation_time: 0,
        }
    }
}

/// The mean duration, rounded down; 0 where nothing has ended.
pub open spec fn mean_time(total_time: int, operations: int) -> int {
    if operations > 0 {
        total_time / operations
    } else {
        0
    }
}

/// The larger of two counts.
pub open spec fn larger(a: int, b: int) -> int {
    if a >= b {
        a
    } else {
        b
    }
}

/// What an `OperationTracker` holds, as mathematical values.
pub struct TrackerView {
    /// Whether operations are instrumented at all.
    pub enabled: bool,
    pub stats: ThreadSafeStats,
    /// Start time of every open operation, by id.
    pub open: Map<u64, u64>,
    /// The last id handed out since the last reset; 0 if none.
    pub issued: u64,
}

impl TrackerView {
    /// An enabled tracker that has seen nothing.
    pub open spec fn initial() -> TrackerView {
        TrackerView { enabled: true, stats: ThreadSafeStats::zero(), open: Map::empty(), issued: 0 }
    }

    /// What every tracker satisfies: the high-water mark is at least the
    /// in-flight count, the mean is the mean, no duration exceeds the range
    /// of the clock, and open ids lie among the ids handed out.
    pub open spec fn wf(self) -> bool {
        &&& self.stats.max_concurrent_operations >= self.stats.concurrent_operations
        &&& self.stats.total_operation_time <= self.stats.total_operations * u64::MAX
        &&& self.stats.average_operation_time == mean_time(
            self.stats.total_operation_time as int,
            self.stats.total_operations as int,
        )
        &&& forall|id: u64| #[trigger] self.open.contains_key(id) ==> 1 <= id <= self.issued
    }

    /// Whether `begin` stays within the range of the counters.
    pub open spec fn can_begin(self) -> bool {
        self.enabled ==> self.issued < u64::MAX && self.stats.concurrent_operations < u64::MAX
    }

    /// The id that `begin` hands out: the next unused one, or 0 when
    /// instrumentation is off.
    pub open spec fn begin_id(self) -> u64 {
        if self.enabled {
            (self.issued + 1) as u64
        } else {
            0
        }
    }

    /// The tracker after an operation began at `now`.
    pub open spec fn begin(self, now: u64) -> TrackerView {
        if self.enabled {
            let in_flight: int = self.stats.concurrent_operations + 1;
            TrackerView {
                enabled: true,
                stats: ThreadSafeStats {
                    concurrent_operations: in_flight as u64,
                    max_concurrent_operations: larger(
                        self.stats.max_concurrent_operations as int,
                        in_flight,
                    ) as u64,
                    ..self.stats
                },
                open: self.open.insert(self.begin_id(), now),
                issued: self.begin_id(),
            }
        } else {
            self
        }
    }

    /// Whether `end` of `id` stays within the range of the counters.
    pub open spec fn can_end(self, id: u64) -> bool {
        id != 0 ==> self.stats.concurrent_operations > 0 && self.stats.total_operations < u64::MAX
    }

    /// How long operation `id` has run at `now`: 0 if it is not open or the
    /// clock reads less than at its start.
    pub open spec fn duration_of(self, id: u64, now: u64) -> u64 {
        if self.open.contains_key(id) && now >= self.open[id] {
            (now - self.open[id]) as u64
        } else {
            0
        }
    }

    /// The tracker after operation `id` ended at `now`.
    pub open spec fn end(self, id: u64, now: u64) -> TrackerView {
        if id == 0 {
            self
        } else {
            let operations: int = self.stats.total_operations + 1;
            let time: int = self.stats.total_operation_time + self.duration_of(id, now);
            TrackerView {
                stats: ThreadSafeStats {
                    total_operations: operations as u64,
                    concurrent_operations: (self.stats.concurrent_operations - 1) as u64,
                    average_operation_time: mean_time(time, operations) as u128,
                    total_operation_time: time as u128,
                    last_operation_time: now,
                    ..self.stats
                },
                open: self.open.remove(id),
                ..self
            }
        }
    }

    /// The tracker with statistics, open operations and ids forgotten.
    pub open spec fn reset(self) -> TrackerView {
        TrackerView { enabled: self.enabled, ..TrackerView::initial() }
    }

    /// The tracker with instrumentation switched on or off.
    pub open spec fn with_enabled(self, enabled: bool) -> TrackerView {
        TrackerView { enabled, ..self }
    }
}

/// One step in the history of a tracker.
pub enum TrackerEvent {
    /// An operation began at clock reading `now`.
    Begin { now: u64 },
    /// Operation `id` ended at clock reading `now`.
    End { id: u64, now: u64 },
}

/// How many operations a history begins.
pub open spec fn begins(history: Seq<TrackerEvent>) -> nat
    decreases history.len(),
{
    if history.len() == 0 {
        0
    } else {
        begins(history.drop_last()) + if history.last() is Begin {
            1nat
        } else {
            0nat
        }
    }
}

/// How many operations a history ends, ends of id 0 left out.
pub open spec fn ends(history: Seq<TrackerEvent>) -> nat
    decreases history.len(),
{
    if history.len() == 0 {
        0
    } else {
        ends(history.drop_last()) + if history.last() matches TrackerEvent::End { id, .. } && id != 0 {
            1nat
        } else {
            0nat
        }
    }
}

impl TrackerView {
    /// Whether the event stays within the range of the counters.
    pub open spec fn admits(self, event: TrackerEvent) -> bool {
        match event {
            TrackerEvent::Begin { .. } => self.can_begin(),
            TrackerEvent::End { id, .. } => self.can_end(id),
        }
    }

    /// The tracker after the event.
    pub open spec fn apply(self, event: TrackerEvent) -> TrackerView {
        match event {
            TrackerEvent::Begin { now } => self.begin(now),
            TrackerEvent::End { id, now } => self.end(id, now),
        }
    }

    /// The tracker after every event of the history, first to last.
    pub open spec fn run(self, history: Seq<TrackerEvent>) -> TrackerView
        decreases history.len(),
    {
        if history.len() == 0 {
            self
        } else {
            self.run(history.drop_last()).apply(history.last())
        }
    }

    /// Whether each event of the history is admitted where it occurs.
    pub open spec fn admits_all(self, history: Seq<TrackerEvent>) -> bool
        decreases history.len(),
    {
        history.len() == 0 || (self.admits_all(history.drop_last()) && self.run(
            history.drop_last(),
        ).admits(history.last()))
    }

    /// The highest in-flight count seen at any point of the history, and at
    /// least the high-water mark the tracker started with.
    pub open spec fn peak(self, history: Seq<TrackerEvent>) -> int
        decreases history.len(),
    {
        if history.len() == 0 {
            self.stats.max_concurrent_operations as int
        } else {
            larger(
                self.peak(history.drop_last()),
                self.run(history).stats.concurrent_operations as int,
            )
        }
    }

    /// Well-formedness survives every admitted history.
    pub proof fn lemma_run_keeps_wf(self, history: Seq<TrackerEvent>)
        requires
            self.wf(),
            self.admits_all(history),
        ensures
            self.run(history).wf(),
            self.run(history).enabled == self.enabled,
        decreases history.len(),
    {
        if history.len() > 0 {
            self.lemma_run_keeps_wf(history.drop_last());
        }
    }

    /// At every point of an admitted history the in-flight count is what the
    /// tracker started with, plus the operations begun while instrumentation
    /// is on, less the operations ended; and every end adds one to the total.
    pub proof fn lemma_in_flight_is_begun_less_ended(self, history: Seq<TrackerEvent>)
        requires
            self.wf(),
            self.admits_all(history),
        ensures
            self.run(history).stats.concurrent_operations == self.stats.concurrent_operations + (
            if self.enabled {
                begins(history) as int
            } else {
                0
            }) - ends(history),
            self.run(history).stats.total_operations == self.stats.total_operations + ends(history),
        decreases history.len(),
    {
        if history.len() > 0 {
            self.lemma_run_keeps_wf(history.drop_last());
            self.lemma_in_flight_is_begun_less_ended(history.drop_last());
        }
    }

    /// At every point of an admitted history the high-water mark equals the
    /// peak of the in-flight count so far, and is at least the current count.
    pub proof fn lemma_high_water_mark_is_peak(self, history: Seq<TrackerEvent>)
        requires
            self.wf(),
            self.admits_all(history),
        ensures
            self.run(history).stats.max_concurrent_operations == self.peak(history),
            self.run(history).stats.max_concurrent_operations >= self.run(
                history,
            ).stats.concurrent_operations,
        decreases history.len(),
    {
        if history.len() > 0 {
            self.lemma_run_keeps_wf(history.drop_last());
            self.lemma_high_water_mark_is_peak(history.drop_last());
        }
    }
}

/// A fresh tracker that has gone through a history in which as many
/// operations ended as began has nothing in flight, and its total is the
/// number of those begin/end pairs.
pub proof fn lemma_completed_pairs_settle(history: Seq<TrackerEvent>)
    requires
        TrackerView::initial().admits_all(history),
        begins(history) == ends(history),
    ensures
        TrackerView::initial().run(history).stats.concurrent_operations == 0,
        TrackerView::initial().run(history).stats.total_operations == begins(history),
{
    TrackerView::initial().lemma_in_flight_is_begun_less_ended(history);
}

/// Begin/end instrumentation with aggregate statistics.
pub struct OperationTracker {
    enabled: bool,
    stats: ThreadSafeStats,
    start_times: HashMapWithView<u64, u64>,
    operation_counter: u64,
}

impl View for OperationTracker {
    type V = TrackerView;

    closed spec fn view(&self) -> TrackerView {
        TrackerView {
            enabled: self.enabled,
            stats: self.stats,
            open: self.start_times@,
            issued: self.operation_counter,
        }
    }
}

impl OperationTracker {
    #[verifier::type_invariant]
    spec fn well_formed(self) -> bool {
        &&& self.stats.max_concurrent_operations >= self.stats.concurrent_operations
        &&& self.stats.total_operation_time <= self.stats.total_operations * u64::MAX
        &&& self.stats.average_operation_time == mean_time(
            self.stats.total_operation_time as int,
            self.stats.total_operations as int,
        )
        &&& forall|id: u64| #[trigger]
            self.start_times@.contains_key(id) ==> 1 <= id <= self.operation_counter
    }

    /// An enabled tracker that has seen nothing.
    pub fn new() -> (tracker: OperationTracker)
        ensures
            tracker@ == TrackerView::initial(),
            tracker@.wf(),
    {
        OperationTracker {
            enabled: true,
            stats: ThreadSafeStats::default(),
            start_times: HashMapWithView::new(),
            operation_counter: 0,
        }
    }

    /// Whether an operation can begin without a counter leaving its range.
    pub fn can_begin(&self) -> (yes: bool)
        ensures
            yes == self@.can_begin(),
    {
        !self.enabled || (self.operation_counter < u64::MAX && self.stats.concurrent_operations
            < u64::MAX)
    }

    /// Whether operation `id` can end without a counter leaving its range.
    pub fn can_end(&self, id: u64) -> (yes: bool)
        ensures
            yes == self@.can_end(id),
    {
        id == 0 || (self.stats.concurrent_operations > 0 && self.stats.total_operations < u64::MAX)
    }

    /// Begins an operation at clock reading `now` and returns its id: never
    /// 0 and never an id that is still open while instrumentation is on,
    /// 0 while it is off.
    pub fn begin_operation_at(&mut self, now: u64) -> (id: u64)
        requires
            old(self)@.can_begin(),
        ensures
            id == old(self)@.begin_id(),
            final(self)@ == old(self)@.begin(now),
            old(self)@.enabled ==> id != 0 && !old(self)@.open.contains_key(id),
            final(self)@.wf(),
    {
        proof {
            use_type_invariant(&*self);
        }
        if !self.enabled {
            return 0;
        }
        let id: u64 = self.operation_counter + 1;
        let in_flight: u64 = self.stats.concurrent_operations + 1;
        let peak: u64 = if self.stats.max_concurrent_operations >= in_flight {
            self.stats.max_concurrent_operations
        } else {
            in_flight
        };
        let stats = ThreadSafeStats {
            concurrent_operations: in_flight,
            max_concurrent_operations: peak,
            ..self.stats
        };
        self.operation_counter = id;
        // The map is taken out while it changes, so that the tracker is
        // well-formed at every step.
        let mut times: HashMapWithView<u64, u64> = HashMapWithView::new();
        std::mem::swap(&mut self.start_times, &mut times);
        times.insert(id, now);
        std::mem::swap(&mut self.start_times, &mut times);
        self.stats = stats;
        id
    }

    /// Ends operation `id` at clock reading `now`. Id 0 is ignored. An id
    /// that is not open counts with duration 0.
    pub fn end_operation_at(&mut self, id: u64, now: u64)
        requires
            old(self)@.can_end(id),
        ensures
            final(self)@ == old(self)@.end(id, now),
            final(self)@.wf(),
    {
        proof {
            use_type_invariant(&*self);
        }
        if id == 0 {
            return ;
        }
        let mut times: HashMapWithView<u64, u64> = HashMapWithView::new();
        std::mem::swap(&mut self.start_times, &mut times);
        let duration: u64 = match times.remove(&id) {
            Some(start) => if now >= start {
                now - start
            } else {
                0
            },
            None => 0,
        };
        std::mem::swap(&mut self.start_times, &mut times);
        let operations: u64 = self.stats.total_operations + 1;
        let time: u128 = self.stats.total_operation_time + duration as u128;
        let stats = ThreadSafeStats {
            total_operations: operations,
            concurrent_operations: self.stats.concurrent_operations - 1,
            average_operation_time: time / (operations as u128),
            total_operation_time: time,
            last_operation_time: now,
            ..self.stats
        };
        self.stats = stats;
        proof {
            assert(self.start_times@ =~= old(self)@.open.remove(id));
            assert(duration == old(self)@.duration_of(id, now));
        }
    }

    /// A copy of the statistics: the high-water mark in it is at least the
    /// in-flight count.
    pub fn get_stats(&self) -> (stats: ThreadSafeStats)
        ensures
            stats == self@.stats,
            stats.max_concurrent_operations >= stats.concurrent_operations,
            self@.wf(),
    {
        proof {
            use_type_invariant(self);
        }
        self.stats
    }

    /// Forgets statistics, open operations and ids; the switch stays.
    pub fn reset_stats(&mut self)
        ensures
            final(self)@ == old(self)@.reset(),
            final(self)@.wf(),
    {
        proof {
            use_type_invariant(&*self);
        }
        let mut times: HashMapWithView<u64, u64> = HashMapWithView::new();
        std::mem::swap(&mut self.start_times, &mut times);
        self.operation_counter = 0;
        self.stats = ThreadSafeStats::default();
    }

    /// Switches instrumentation on.
    pub fn enable_performance_monitoring(&mut self)
        ensures
            final(self)@ == old(self)@.with_enabled(true),
            final(self)@.wf(),
    {
        proof {
            use_type_invariant(&*self);
        }
        self.enabled = true;
    }

    /// Switches instrumentation off: operations begun from now on get id 0.
    pub fn disable_performance_monitoring(&mut self)
        ensures
            final(self)@ == old(self)@.with_enabled(false),
            final(self)@.wf(),
    {
        proof {
            use_type_invariant(&*self);
        }
        self.enabled = false;
    }

    /// Whether instrumentation is on.
    pub fn is_enabled(&self) -> (enabled: bool)
        ensures
            enabled == self@.enabled,
    {
        self.enabled
    }
}

} // verus!
