//! Named events with ordered subscribers and a publish counter per event.

use crate::sharing::share;
use serde_json::Value;
use std::sync::Arc;
use vstd::hash_map::StringHashMap;
use vstd::prelude::*;

verus! {

/// A subscriber. `handle` receives the payload of every publish of the
/// event it is subscribed to; an `Err` is a failure of this subscriber alone.
pub trait EventHandler {
    fn handle(&self, payload: Value) -> Result<(), String>;
}

/// Whether `outcome` is what `handler` returned for `payload`.
pub open spec fn handled<H: EventHandler>(handler: H, payload: Value, outcome: Result<(), String>) -> bool {
    call_ensures(H::handle, (&handler, payload), outcome)
}

/// What an `EventBus` holds, as mathematical values.
#[verifier::reject_recursive_types(H)]
pub struct EventBusView<H> {
    /// The subscribers of each event that was ever subscribed to, in the
    /// order in which they subscribed.
    pub handlers: Map<Seq<char>, Seq<Arc<H>>>,
    /// How often each event was published to a subscriber list.
    pub counts: Map<Seq<char>, u64>,
}

impl<H> EventBusView<H> {
    /// A bus without subscribers or publishes.
    pub open spec fn initial() -> EventBusView<H> {
        EventBusView { handlers: Map::empty(), counts: Map::empty() }
    }

    /// The subscribers of `event`, none if it was never subscribed to.
    pub open spec fn subscribers(self, event: Seq<char>) -> Seq<Arc<H>> {
        if self.handlers.contains_key(event) {
            self.handlers[event]
        } else {
            Seq::empty()
        }
    }

    /// How often `event` was published, 0 if never.
    pub open spec fn count_of(self, event: Seq<char>) -> u64 {
        if self.counts.contains_key(event) {
            self.counts[event]
        } else {
            0
        }
    }

    /// The bus after `handler` subscribed to `event`: it is last in line.
    pub open spec fn subscribe(self, event: Seq<char>, handler: Arc<H>) -> EventBusView<H> {
        EventBusView {
            handlers: self.handlers.insert(event, self.subscribers(event).push(handler)),
            ..self
        }
    }

    /// The bus after the subscriber at `index` of `event` was removed; the
    /// same bus if there is no such subscriber.
    pub open spec fn unsubscribe(self, event: Seq<char>, index: int) -> EventBusView<H> {
        if self.handlers.contains_key(event) && 0 <= index < self.handlers[event].len() {
            EventBusView {
                handlers: self.handlers.insert(event, self.handlers[event].remove(index)),
                ..self
            }
        } else {
            self
        }
    }

    /// Whether a publish of `event` stays within the range of its counter.
    pub open spec fn can_publish(self, event: Seq<char>) -> bool {
        self.handlers.contains_key(event) ==> self.count_of(event) < u64::MAX
    }

    /// The bus after a publish of `event`: its counter advances by one if
    /// the event has a subscriber list, and nothing changes if it has none.
    pub open spec fn publish(self, event: Seq<char>) -> EventBusView<H> {
        if self.handlers.contains_key(event) {
            EventBusView {
                counts: self.counts.insert(event, (self.count_of(event) + 1) as u64),
                ..self
            }
        } else {
            self
        }
    }

    /// The handlers a publish of `event` is dispatched to.
    pub open spec fn snapshot(self, event: Seq<char>) -> Option<Seq<Arc<H>>> {
        if self.handlers.contains_key(event) {
            Some(self.handlers[event])
        } else {
            None
        }
    }
}

/// What a snapshot of handlers holds.
pub open spec fn snapshot_view<H>(snapshot: Option<Vec<Arc<H>>>) -> Option<Seq<Arc<H>>> {
    match snapshot {
        Some(list) => Some(list@),
        None => None,
    }
}

/// Named events, each with its subscribers in subscription order.
#[verifier::reject_recursive_types(H)]
pub struct EventBus<H> {
    handlers: StringHashMap<Vec<Arc<H>>>,
    counts: StringHashMap<u64>,
}

impl<H> View for EventBus<H> {
    type V = EventBusView<H>;

    closed spec fn view(&self) -> EventBusView<H> {
        EventBusView {
            handlers: Map::new(
                |event: Seq<char>| self.handlers@.contains_key(event),
                |event: Seq<char>| self.handlers@[event]@,
            ),
            counts: self.counts@,
        }
    }
}

/// Copies a list of handles; the handlers themselves are shared.
fn share_all<H>(list: &Vec<Arc<H>>) -> (copy: Vec<Arc<H>>)
    ensures
        copy@ == list@,
{
    let mut copy: Vec<Arc<H>> = Vec::new();
    let mut i: usize = 0;
    while i < list.len()
        invariant
            i <= list.len(),
            copy@ == list@.subrange(0, i as int),
        decreases list.len() - i,
    {
        copy.push(share(&list[i]));
        i += 1;
    }
    assert(list@.subrange(0, list@.len() as int) == list@);
    copy
}

impl<H> EventBus<H> {
    /// A bus without subscribers or publishes.
    pub fn new() -> (bus: EventBus<H>)
        ensures
            bus@ == EventBusView::<H>::initial(),
    {
        let bus = EventBus { handlers: StringHashMap::new(), counts: StringHashMap::new() };
        assert(bus@.handlers =~= Map::<Seq<char>, Seq<Arc<H>>>::empty());
        bus
    }

    /// Subscribes `handler` to `event`, behind the subscribers it has.
    pub fn subscribe(&mut self, event: &str, handler: Arc<H>)
        ensures
            final(self)@ == old(self)@.subscribe(event@, handler),
    {
        let mut list: Vec<Arc<H>> = match self.handlers.get(event) {
            Some(present) => share_all(present),
            None => Vec::new(),
        };
        list.push(handler);
        self.handlers.insert(event.to_owned(), list);
        assert(self@.handlers =~= old(self)@.subscribe(event@, handler).handlers);
    }

    /// Removes the subscriber at position `index` of `event`. Without such
    /// a subscriber nothing happens.
    pub fn unsubscribe(&mut self, event: &str, index: usize)
        ensures
            final(self)@ == old(self)@.unsubscribe(event@, index as int),
    {
        let mut list: Vec<Arc<H>> = match self.handlers.get(event) {
            Some(present) => share_all(present),
            None => { return ; },
        };
        if index < list.len() {
            list.remove(index);
            self.handlers.insert(event.to_owned(), list);
            assert(self@.handlers =~= old(self)@.unsubscribe(event@, index as int).handlers);
        }
    }

    /// Whether `event` can be published without its counter leaving its
    /// range.
    pub fn can_publish(&self, event: &str) -> (yes: bool)
        ensures
            yes == self@.can_publish(event@),
    {
        if self.handlers.contains_key(event) {
            match self.counts.get(event) {
                Some(count) => *count < u64::MAX,
                None => true,
            }
        } else {
            true
        }
    }

    /// Starts a publish of `event`: counts it and returns the handlers to
    /// dispatch to, as they stand now. An event that was never subscribed to
    /// is not counted and has nothing to dispatch to.
    pub fn begin_publish(&mut self, event: &str) -> (snapshot: Option<Vec<Arc<H>>>)
        requires
            old(self)@.can_publish(event@),
        ensures
            snapshot_view(snapshot) == old(self)@.snapshot(event@),
            final(self)@ == old(self)@.publish(event@),
    {
        let list: Vec<Arc<H>> = match self.handlers.get(event) {
            Some(present) => share_all(present),
            None => { return None; },
        };
        let count: u64 = match self.counts.get(event) {
            Some(count) => *count,
            None => 0,
        };
        self.counts.insert(event.to_owned(), count + 1);
        assert(self@.handlers =~= old(self)@.handlers);
        Some(list)
    }

    /// How often `event` was published.
    pub fn event_count(&self, event: &str) -> (count: u64)
        ensures
            count == self@.count_of(event@),
    {
        match self.counts.get(event) {
            Some(count) => *count,
            None => 0,
        }
    }

    /// How many subscribers `event` has.
    pub fn subscriber_count(&self, event: &str) -> (count: usize)
        ensures
            count == self@.subscribers(event@).len(),
    {
        match self.handlers.get(event) {
            Some(present) => present.len(),
            None => 0,
        }
    }
}

/// Hands `payload` to every handler, first to last, and returns what each
/// returned. A failing handler does not keep the later ones from running.
pub fn dispatch<H: EventHandler>(handlers: &Vec<Arc<H>>, payload: &Value) -> (outcomes: Vec<
    Result<(), String>,
>)
    ensures
        outcomes@.len() == handlers@.len(),
        forall|i: int|
            0 <= i < handlers@.len() ==> handled(*handlers@[i], *payload, #[trigger] outcomes@[i]),
{
    let mut outcomes: Vec<Result<(), String>> = Vec::new();
    let mut i: usize = 0;
    while i < handlers.len()
        invariant
            i <= handlers.len(),
            outcomes@.len() == i,
            forall|j: int| 0 <= j < i ==> handled(*handlers@[j], *payload, #[trigger] outcomes@[j]),
        decreases handlers.len() - i,
    {
        let outcome = handlers[i].handle(payload.clone());
        outcomes.push(outcome);
        i += 1;
    }
    outcomes
}

} // verus!
