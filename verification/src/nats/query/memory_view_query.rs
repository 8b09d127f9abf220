//! The table behind an in-memory projection: one view per aggregate ID.
//!
//! A memory view keeps the latest view of every aggregate it has seen.  Its
//! projector applies each event to the stored view of the event's aggregate
//! (starting from the view's default value for an aggregate seen for the
//! first time), and its query handler answers from a snapshot of the stored
//! view, falling back to the default value for an aggregate never seen.
use crate::nats::AggregateId;
use std::collections::HashMap;
use vstd::prelude::*;

verus! {

broadcast use vstd::std_specs::hash::group_hash_axioms;

/// The views of all aggregates seen so far, keyed by aggregate ID.
pub struct ViewTable<V> {
    views: HashMap<AggregateId, V>,
}

/// The view stored for `id`, or `default` when there is none.
pub open spec fn view_or_default<V>(views: Map<AggregateId, V>, id: AggregateId, default: V) -> V {
    if views.contains_key(id) {
        views[id]
    } else {
        default
    }
}

/// `after` is `before` once `event` has been applied to the view of `id`
/// by `apply`, starting from `default` for an aggregate not seen yet.
pub open spec fn table_step<V, E, F: Fn(V, E) -> V>(
    apply: F,
    default: V,
    id: AggregateId,
    event: E,
    before: Map<AggregateId, V>,
    after: Map<AggregateId, V>,
) -> bool {
    exists|next: V|
        {
            &&& call_ensures(apply, (view_or_default(before, id, default), event), next)
            &&& after == before.insert(id, next)
        }
}

impl<V> View for ViewTable<V> {
    type V = Map<AggregateId, V>;

    closed spec fn view(&self) -> Map<AggregateId, V> {
        self.views@
    }
}

impl<V> ViewTable<V> {
    /// An empty table.
    pub fn new() -> (t: Self)
        ensures
            t@ == Map::<AggregateId, V>::empty(),
    {
        ViewTable { views: HashMap::new() }
    }

    /// Apply `event` to the view of aggregate `id`: `apply` receives the
    /// stored view (or `default` for an aggregate not seen yet) and the
    /// event, and its result replaces the stored view.  Other aggregates keep
    /// their views.
    pub fn apply_event<E, F: Fn(V, E) -> V>(&mut self, id: AggregateId, default: V, event: E, apply: F)
        requires
            forall|v: V, e: E| call_requires(apply, (v, e)),
        ensures
            table_step(apply, default, id, event, old(self)@, final(self)@),
    {
        let ghost before = self.views@;
        let current = match self.views.remove(&id) {
            Some(v) => v,
            None => default,
        };
        let next = apply(current, event);
        let ghost stored = next;
        self.views.insert(id, next);
        assert(self.views@ =~= before.insert(id, stored));
        assert(call_ensures(apply, (view_or_default(old(self)@, id, default), event), stored));
    }

    /// The view stored for aggregate `id`, if it was seen.
    pub fn snapshot(&self, id: AggregateId) -> (r: Option<&V>)
        ensures
            match r {
                Some(v) => self@.contains_key(id) && *v == self@[id],
                None => !self@.contains_key(id),
            },
    {
        self.views.get(&id)
    }

    /// The number of aggregates with a stored view.
    pub fn len(&self) -> (n: usize)
        ensures
            n == self@.len(),
    {
        self.views.len()
    }
}

impl<V: Clone> ViewTable<V> {
    /// A copy of the view stored for aggregate `id`, or `default` for an
    /// aggregate never seen (the view of an aggregate with no events).
    pub fn view_or(&self, id: AggregateId, default: V) -> (r: V)
        ensures
            self@.contains_key(id) ==> cloned(self@[id], r),
            !self@.contains_key(id) ==> r == default,
    {
        match self.views.get(&id) {
            Some(v) => v.clone(),
            None => default,
        }
    }
}

} // verus!
