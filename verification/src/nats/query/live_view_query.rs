//! The live-view query handler and the steps every query handler takes.
//!
//! A live-view query replays the whole event history of the requested
//! aggregate on each request, folds the events into a fresh view starting
//! from its default value, projects the view into a read model and answers
//! with a [`QueryReply`] carrying that read model as JSON.
//!
//! Handling one query request goes through these outside operations, in
//! order: decode the [`crate::nats::QueryEnvelope`], fetch the view (replay
//! the events, or read an in-memory snapshot), project and serialize the read
//! model, and encode the reply.  After each of them the embedding application
//! calls the matching `after_*` function, which says what to do next.
use crate::error::{StoreError, StoreErrorView};
use crate::nats::query_dispatcher::{query_success_reply, QueryReply};
use crate::nats::{finish_encoding, format_error, AggregateId};
use core::marker::PhantomData;
use vstd::prelude::*;

verus! {

/// A query handler that rebuilds the view `V` from the event stream on every
/// request and answers with the read model `R` that `projection` makes of it.
pub struct LiveViewQuery<V, R, F> {
    handler_name: &'static str,
    projection: F,
    _phantom: PhantomData<(V, R)>,
}

impl<V, R, F> LiveViewQuery<V, R, F> {
    /// The routing name of this handler.
    pub closed spec fn spec_name(&self) -> &'static str {
        self.handler_name
    }

    /// The projection from a built view to the read model.
    pub closed spec fn spec_projection(&self) -> F {
        self.projection
    }

    /// Create a new handler with the given routing name and projection.
    pub fn new(handler_name: &'static str, projection: F) -> (r: Self)
        ensures
            r.spec_name() == handler_name,
            r.spec_projection() == projection,
    {
        LiveViewQuery { handler_name, projection, _phantom: PhantomData }
    }

    /// The name used to route queries to this handler.
    pub fn name(&self) -> (r: &'static str)
        ensures
            r == self.spec_name(),
    {
        self.handler_name
    }

    /// The projection from a built view to the read model.
    pub fn projection(&self) -> (r: &F)
        ensures
            *r == self.spec_projection(),
    {
        &self.projection
    }
}

/// What a query handler does next.
pub enum QueryStep {
    /// Build the view of the aggregate with this ID.
    Fetch { id: AggregateId },
    /// Project the built view and serialize the read model.
    Project,
    /// Serialize this reply.
    Encode { reply: QueryReply },
    /// Stop, with this result for the request.
    Finish { outcome: Result<Vec<u8>, StoreError> },
}

/// After decoding the query envelope: fetch the view of its aggregate, or
/// stop with a format error carrying the deserializer's message.
pub fn after_query_envelope(decoded: Result<AggregateId, String>) -> (step: QueryStep)
    ensures
        match decoded {
            Ok(id) => step == (QueryStep::Fetch { id }),
            Err(reason) => step matches QueryStep::Finish { outcome: Err(e) }
                && e@ == StoreErrorView::Format(reason@),
        },
{
    match decoded {
        Ok(id) => QueryStep::Fetch { id },
        Err(reason) => QueryStep::Finish { outcome: Err(format_error(reason)) },
    }
}

/// After replaying the event stream: project the view, or stop with the
/// replay's error unchanged.
pub fn after_replay(replayed: Result<(), StoreError>) -> (step: QueryStep)
    ensures
        match replayed {
            Ok(()) => step == QueryStep::Project,
            Err(err) => step matches QueryStep::Finish { outcome: Err(e) } && e == err,
        },
{
    match replayed {
        Ok(()) => QueryStep::Project,
        Err(err) => QueryStep::Finish { outcome: Err(err) },
    }
}

/// After projecting the view and serializing the read model to JSON text:
/// encode a successful reply carrying it, or stop with a format error
/// carrying the serializer's message.
pub fn after_projection(projected: Result<String, String>) -> (step: QueryStep)
    ensures
        match projected {
            Ok(json) => step matches QueryStep::Encode { reply } && reply@ == query_success_reply(json@),
            Err(reason) => step matches QueryStep::Finish { outcome: Err(e) }
                && e@ == StoreErrorView::Format(reason@),
        },
{
    match projected {
        Ok(json) => QueryStep::Encode { reply: QueryReply::with_data(json) },
        Err(reason) => QueryStep::Finish { outcome: Err(format_error(reason)) },
    }
}

/// After encoding the reply: stop with the bytes, or with a format error
/// carrying the serializer's message.
pub fn after_query_encode(encoded: Result<Vec<u8>, String>) -> (step: QueryStep)
    ensures
        match encoded {
            Ok(bytes) => step matches QueryStep::Finish { outcome: Ok(out) } && out@ == bytes@,
            Err(reason) => step matches QueryStep::Finish { outcome: Err(e) }
                && e@ == StoreErrorView::Format(reason@),
        },
{
    QueryStep::Finish { outcome: finish_encoding(encoded) }
}

/// One item of a replayed event stream, as the replay loop sees it.
pub enum ReplayItem {
    /// An event that was received and deserialized.
    Event,
    /// The stream reported an error.
    StreamFailed(StoreError),
    /// An envelope was received but its event did not deserialize; the text
    /// is the display text of that error.
    Undecodable(String),
}

/// Whether the replay goes on after an item (`Ok`) or stops with an error:
/// the stream's own error, or a format error carrying the display text of
/// the deserialization failure.
pub fn replay_item_verdict(item: ReplayItem) -> (r: Result<(), StoreError>)
    ensures
        match item {
            ReplayItem::Event => r is Ok,
            ReplayItem::StreamFailed(err) => r == Err::<(), StoreError>(err),
            ReplayItem::Undecodable(text) => r matches Err(e) && e@ == StoreErrorView::Format(text@),
        },
{
    match item {
        ReplayItem::Event => Ok(()),
        ReplayItem::StreamFailed(err) => Err(err),
        ReplayItem::Undecodable(text) => Err(format_error(text)),
    }
}

/// `states` records a fold of `events` by `apply` starting from `init`:
/// `states[0]` is `init` and each later state is what `apply` gave for the
/// previous state and the next event.
pub open spec fn fold_chain<V, E, F: Fn(V, E) -> V>(
    apply: F,
    init: V,
    events: Seq<E>,
    states: Seq<V>,
) -> bool {
    &&& states.len() == events.len() + 1
    &&& states[0] == init
    &&& forall|i: int|
        0 <= i < events.len() ==> #[trigger] call_ensures(apply, (states[i], events[i]), states[i + 1])
}

/// Fold the replayed events into a view, starting from `init` (the view's
/// default value) and applying the events in stream order.
pub fn fold_events<V, E, F: Fn(V, E) -> V>(init: V, events: Vec<E>, apply: F) -> (view: V)
    requires
        forall|v: V, e: E| call_requires(apply, (v, e)),
    ensures
        exists|states: Seq<V>|
            fold_chain(apply, init, events@, states) && states.last() == view,
{
    let ghost all = events@;
    let mut view = init;
    let ghost mut states: Seq<V> = seq![init];
    for e in it: events.into_iter()
        invariant
            forall|v: V, e: E| call_requires(apply, (v, e)),
            it.seq() == all,
            states.len() == it.index() + 1,
            states[0] == init,
            states.last() == view,
            forall|i: int|
                0 <= i < it.index() ==> #[trigger] call_ensures(apply, (states[i], all[i]), states[i + 1]),
    {
        let next = apply(view, e);
        proof {
            states = states.push(next);
        }
        view = next;
    }
    assert(fold_chain(apply, init, all, states));
    view
}

} // verus!
