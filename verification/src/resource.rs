//! Named resources of differing kinds behind one type, handed out only to
//! callers that name the kind that is stored.

use crate::sharing::share;
use serde_json::Value;
use std::sync::Arc;
use vstd::hash_map::StringHashMap;
use vstd::prelude::*;

verus! {

/// The kinds of value a registry stores.
#[derive(Debug, Clone, Copy, PartialEq, Eq, Structural)]
pub enum ResourceKind {
    Integer,
    Unsigned,
    Boolean,
    Text,
    Bytes,
    Json,
}

/// A stored value, tagged with its kind.
pub enum Resource {
    Integer(i64),
    Unsigned(u64),
    Boolean(bool),
    Text(String),
    Bytes(Vec<u8>),
    Json(Value),
}

impl Resource {
    /// The kind of the value.
    pub open spec fn kind_of(self) -> ResourceKind {
        match self {
            Resource::Integer(_) => ResourceKind::Integer,
            Resource::Unsigned(_) => ResourceKind::Unsigned,
            Resource::Boolean(_) => ResourceKind::Boolean,
            Resource::Text(_) => ResourceKind::Text,
            Resource::Bytes(_) => ResourceKind::Bytes,
            Resource::Json(_) => ResourceKind::Json,
        }
    }

    /// The kind of the value.
    pub fn kind(&self) -> (kind: ResourceKind)
        ensures
            kind == self.kind_of(),
    {
        match self {
            Resource::Integer(_) => ResourceKind::Integer,
            Resource::Unsigned(_) => ResourceKind::Unsigned,
            Resource::Boolean(_) => ResourceKind::Boolean,
            Resource::Text(_) => ResourceKind::Text,
            Resource::Bytes(_) => ResourceKind::Bytes,
            Resource::Json(_) => ResourceKind::Json,
        }
    }
}

/// What a `ResourceRegistry` holds: the value stored under each name.
pub type RegistryView = Map<Seq<char>, Resource>;

/// What a request for `name` as a `kind` finds: the stored value if there
/// is one of that kind, and nothing otherwise, be the name unused or the
/// value of another kind.
pub open spec fn retrieve(entries: RegistryView, name: Seq<char>, kind: ResourceKind) -> Option<
    Resource,
> {
    if entries.contains_key(name) && entries[name].kind_of() == kind {
        Some(entries[name])
    } else {
        None
    }
}

/// What a handle, if any, points to.
pub open spec fn handle_view<T>(handle: Option<Arc<T>>) -> Option<T> {
    match handle {
        Some(shared) => Some(*shared),
        None => None,
    }
}

/// A request under the wrong kind is answered like a request for a name
/// that was never stored.
pub proof fn lemma_wrong_kind_looks_absent(
    entries: RegistryView,
    name: Seq<char>,
    value: Resource,
    kind: ResourceKind,
    unused: Seq<char>,
)
    requires
        kind != value.kind_of(),
        !entries.contains_key(unused),
    ensures
        retrieve(entries.insert(name, value), name, kind) is None,
        retrieve(entries.insert(name, value), name, kind) == retrieve(entries, unused, kind),
        retrieve(entries.insert(name, value), name, value.kind_of()) == Some(value),
{
}

/// Heterogeneous named store with kind-checked retrieval.
pub struct ResourceRegistry {
    entries: StringHashMap<Arc<Resource>>,
}

impl View for ResourceRegistry {
    type V = RegistryView;

    closed spec fn view(&self) -> RegistryView {
        Map::new(
            |name: Seq<char>| self.entries@.contains_key(name),
            |name: Seq<char>| *self.entries@[name],
        )
    }
}

impl ResourceRegistry {
    /// An empty registry.
    pub fn new() -> (registry: ResourceRegistry)
        ensures
            registry@ == Map::<Seq<char>, Resource>::empty(),
    {
        let registry = ResourceRegistry { entries: StringHashMap::new() };
        assert(registry@ =~= Map::<Seq<char>, Resource>::empty());
        registry
    }

    /// Stores `value` under `name`, in place of what was there.
    pub fn put(&mut self, name: &str, value: Resource)
        ensures
            final(self)@ == old(self)@.insert(name@, value),
    {
        self.entries.insert(name.to_owned(), Arc::new(value));
        assert(self@ =~= old(self)@.insert(name@, value));
    }

    /// A shared handle to the value under `name` if it is of `kind`;
    /// nothing if the name is unused or the value is of another kind.
    pub fn get(&self, name: &str, kind: ResourceKind) -> (found: Option<Arc<Resource>>)
        ensures
            handle_view(found) == retrieve(self@, name@, kind),
    {
        match self.entries.get(name) {
            Some(handle) => {
                if handle.kind() == kind {
                    Some(share(handle))
                } else {
                    None
                }
            },
            None => None,
        }
    }

    /// Drops the value under `name`; handles given out stay valid.
    pub fn remove(&mut self, name: &str)
        ensures
            final(self)@ == old(self)@.remove(name@),
    {
        self.entries.remove(name);
        assert(self@ =~= old(self)@.remove(name@));
    }

    /// Drops every value; handles given out stay valid.
    pub fn clear(&mut self)
        ensures
            final(self)@ == Map::<Seq<char>, Resource>::empty(),
    {
        self.entries.clear();
        assert(self@ =~= Map::<Seq<char>, Resource>::empty());
    }

    /// How many values are stored.
    pub fn len(&self) -> (count: usize)
        ensures
            count == self@.len(),
    {
        assert(self@.dom() =~= self.entries@.dom());
        self.entries.len()
    }
}

} // verus!
