//! Properties that relate several parts of the library.
use crate::error::{error_message, error_from_store, error_from_store_typed, ErrorView, StoreErrorView};
use crate::nats::client::cqrs_client::{command_outcome, query_outcome};
use crate::nats::command::aggregate_command_handler::reply_after_write;
use crate::nats::command_dispatcher::{command_failure_reply, endpoint_subject};
use crate::nats::query_dispatcher::{query_failure_reply, query_success_reply};
use crate::nats::query::live_view_query::fold_chain;
use crate::nats::query::memory_view_query::{table_step, view_or_default};
use crate::nats::AggregateId;
use vstd::prelude::*;

verus! {

/// Within one service, distinct handler names get distinct subjects, so a
/// request subject designates a single endpoint.
pub proof fn lemma_subjects_distinguish_handlers(
    service_name: Seq<char>,
    first: Seq<char>,
    second: Seq<char>,
)
    requires
        endpoint_subject(service_name, first) == endpoint_subject(service_name, second),
    ensures
        first == second,
{
    let prefix = service_name + "."@;
    let a = endpoint_subject(service_name, first);
    let b = endpoint_subject(service_name, second);
    assert(a == prefix + first);
    assert(b == prefix + second);
    assert(first =~= a.subrange(prefix.len() as int, a.len() as int));
    assert(second =~= b.subrange(prefix.len() as int, b.len() as int));
}

/// Dispatching a command that the aggregate handler processed gives back the
/// ID of the written aggregate when the write succeeded, and otherwise the
/// write's error as the reply converted it.
pub proof fn lemma_command_reply_round_trip(
    id: AggregateId,
    written: Result<AggregateId, StoreErrorView>,
    typed_external: Option<Seq<char>>,
)
    ensures
        command_outcome(reply_after_write(id, written, typed_external)) == match written {
            Ok(written_id) => Ok::<AggregateId, ErrorView>(written_id),
            Err(err) => Err(error_from_store_typed(err, typed_external)),
        },
{
}

/// A query answered with data gives that data back to the caller.
pub proof fn lemma_query_reply_round_trip(data: Seq<char>)
    ensures
        query_outcome(query_success_reply(data)) == Ok::<Seq<char>, ErrorView>(data),
{
}

/// A handler failure answered by a dispatcher reaches the caller as an
/// internal error: for a command it carries the failure's text, for a query
/// the message of the internal error the reply carried.
pub proof fn lemma_dispatcher_failures_reach_the_caller(message: Seq<char>)
    ensures
        command_outcome(command_failure_reply(message)) == Err::<AggregateId, ErrorView>(
            ErrorView::Internal(message),
        ),
        query_outcome(query_failure_reply(message)) == Err::<Seq<char>, ErrorView>(
            ErrorView::Internal(error_message(ErrorView::Internal(message))),
        ),
{
}

/// Every reply the library builds says it succeeded exactly when it carries
/// no error (and, for queries, exactly when it carries data).
pub proof fn lemma_replies_are_well_formed(
    id: AggregateId,
    written: Result<AggregateId, StoreErrorView>,
    typed_external: Option<Seq<char>>,
    message: Seq<char>,
    data: Seq<char>,
)
    ensures
        reply_after_write(id, written, typed_external).well_formed(),
        command_failure_reply(message).well_formed(),
        query_success_reply(data).well_formed(),
        query_failure_reply(message).well_formed(),
{
}

/// Converting an event-store error keeps its variant.
pub proof fn lemma_conversion_keeps_the_variant(err: StoreErrorView, typed_external: Option<Seq<char>>)
    ensures
        (err is Internal) <==> (error_from_store(err) is Internal),
        (err is External) <==> (error_from_store(err) is External),
        (err is Format) <==> (error_from_store(err) is Format),
        (err is Invalid) <==> (error_from_store(err) is Invalid),
        (err is Conflict) <==> (error_from_store(err) is Conflict),
        (err is Internal) <==> (error_from_store_typed(err, typed_external) is Internal),
        (err is External) <==> (error_from_store_typed(err, typed_external) is External),
        (err is Format) <==> (error_from_store_typed(err, typed_external) is Format),
        (err is Invalid) <==> (error_from_store_typed(err, typed_external) is Invalid),
        (err is Conflict) <==> (error_from_store_typed(err, typed_external) is Conflict),
{
}

/// An in-memory view answers like a live replay: when a table that had not
/// seen aggregate `id` has applied the events of `id` in stream order, the
/// view it holds for `id` is the one a replay folds from the default view
/// with the same `apply`.  (With no events, both are the default view.)
pub proof fn lemma_memory_view_agrees_with_replay<V, E, F: Fn(V, E) -> V>(
    apply: F,
    default: V,
    id: AggregateId,
    events: Seq<E>,
    tables: Seq<Map<AggregateId, V>>,
)
    requires
        tables.len() == events.len() + 1,
        !tables[0].contains_key(id),
        forall|i: int|
            0 <= i < events.len() ==> #[trigger] table_step(
                apply,
                default,
                id,
                events[i],
                tables[i],
                tables[i + 1],
            ),
    ensures
        exists|states: Seq<V>|
            fold_chain(apply, default, events, states) && states.last() == view_or_default(
                tables.last(),
                id,
                default,
            ),
{
    let states = Seq::new(tables.len(), |i: int| view_or_default(tables[i], id, default));
    assert forall|i: int|
        0 <= i < events.len() implies #[trigger] call_ensures(
        apply,
        (states[i], events[i]),
        states[i + 1],
    ) by {
        assert(table_step(apply, default, id, events[i], tables[i], tables[i + 1]));
        let next = choose|next: V|
            {
                &&& call_ensures(apply, (view_or_default(tables[i], id, default), events[i]), next)
                &&& tables[i + 1] == tables[i].insert(id, next)
            };
        assert(states[i + 1] == next);
    }
    assert(fold_chain(apply, default, events, states));
    assert(states.last() == view_or_default(tables.last(), id, default));
}

/// The events of aggregate `id` in a stream of `(aggregate, event)` pairs,
/// in stream order.
pub open spec fn events_of<E>(events: Seq<(AggregateId, E)>, id: AggregateId) -> Seq<E>
    decreases events.len(),
{
    if events.len() == 0 {
        Seq::empty()
    } else {
        let earlier = events_of(events.drop_last(), id);
        if events.last().0 == id {
            earlier.push(events.last().1)
        } else {
            earlier
        }
    }
}

/// An in-memory view answers like a live replay even when the table sees
/// the events of many aggregates: once a table that had not seen `id` has
/// applied a stream of events of any aggregates, the view it holds for `id`
/// is the one a replay folds from the default view over the events of `id`
/// alone, with the same `apply`.
pub proof fn lemma_shared_memory_view_agrees_with_replay<V, E, F: Fn(V, E) -> V>(
    apply: F,
    default: V,
    id: AggregateId,
    events: Seq<(AggregateId, E)>,
    tables: Seq<Map<AggregateId, V>>,
)
    requires
        tables.len() == events.len() + 1,
        !tables[0].contains_key(id),
        forall|i: int|
            0 <= i < events.len() ==> #[trigger] table_step(
                apply,
                default,
                events[i].0,
                events[i].1,
                tables[i],
                tables[i + 1],
            ),
    ensures
        exists|states: Seq<V>|
            fold_chain(apply, default, events_of(events, id), states) && states.last()
                == view_or_default(tables.last(), id, default),
    decreases events.len(),
{
    if events.len() == 0 {
        let states = seq![default];
        assert(events_of(events, id) =~= Seq::<E>::empty());
        assert(fold_chain(apply, default, events_of(events, id), states));
        assert(states.last() == view_or_default(tables.last(), id, default));
    } else {
        let n = events.len() - 1;
        let earlier_events = events.drop_last();
        let earlier_tables = tables.drop_last();
        assert forall|i: int| 0 <= i < earlier_events.len() implies #[trigger] table_step(
            apply,
            default,
            earlier_events[i].0,
            earlier_events[i].1,
            earlier_tables[i],
            earlier_tables[i + 1],
        ) by {
            assert(table_step(apply, default, events[i].0, events[i].1, tables[i], tables[i + 1]));
        }
        lemma_shared_memory_view_agrees_with_replay(apply, default, id, earlier_events, earlier_tables);
        let earlier_states = choose|states: Seq<V>|
            fold_chain(apply, default, events_of(earlier_events, id), states) && states.last()
                == view_or_default(earlier_tables.last(), id, default);
        let (eid, e) = events[n];
        assert(table_step(apply, default, eid, e, tables[n], tables[n + 1]));
        let next = choose|next: V|
            {
                &&& call_ensures(apply, (view_or_default(tables[n], eid, default), e), next)
                &&& tables[n + 1] == tables[n].insert(eid, next)
            };
        assert(earlier_tables.last() == tables[n]);
        if eid == id {
            let states = earlier_states.push(next);
            let evs = events_of(events, id);
            assert(evs == events_of(earlier_events, id).push(e));
            assert forall|i: int| 0 <= i < evs.len() implies #[trigger] call_ensures(
                apply,
                (states[i], evs[i]),
                states[i + 1],
            ) by {
                if i < evs.len() - 1 {
                    assert(call_ensures(
                        apply,
                        (earlier_states[i], events_of(earlier_events, id)[i]),
                        earlier_states[i + 1],
                    ));
                }
            }
            assert(fold_chain(apply, default, evs, states));
            assert(states.last() == view_or_default(tables.last(), id, default));
        } else {
            assert(events_of(events, id) == events_of(earlier_events, id));
            assert(view_or_default(tables[n + 1], id, default) == view_or_default(tables[n], id, default));
            assert(fold_chain(apply, default, events_of(events, id), earlier_states));
            assert(earlier_states.last() == view_or_default(tables.last(), id, default));
        }
    }
}

/// `apply` gives one result for each view and event.
pub open spec fn deterministic<V, E, F: Fn(V, E) -> V>(apply: F) -> bool {
    forall|v: V, e: E, a: V, b: V|
        call_ensures(apply, (v, e), a) && call_ensures(apply, (v, e), b) ==> a == b
}

/// With a deterministic `apply`, a fold of the same events from the same
/// starting view has only one chain of states.
pub proof fn lemma_fold_chains_agree<V, E, F: Fn(V, E) -> V>(
    apply: F,
    init: V,
    events: Seq<E>,
    first: Seq<V>,
    second: Seq<V>,
)
    requires
        deterministic(apply),
        fold_chain(apply, init, events, first),
        fold_chain(apply, init, events, second),
    ensures
        first == second,
    decreases events.len(),
{
    if events.len() > 0 {
        let n = events.len() - 1;
        let earlier = events.drop_last();
        assert(fold_chain(apply, init, earlier, first.drop_last()));
        assert(fold_chain(apply, init, earlier, second.drop_last()));
        lemma_fold_chains_agree(apply, init, earlier, first.drop_last(), second.drop_last());
        assert(first[n] == second[n]) by {
            assert(first[n] == first.drop_last()[n]);
            assert(second[n] == second.drop_last()[n]);
        }
        assert(call_ensures(apply, (first[n], events[n]), first[n + 1]));
        assert(call_ensures(apply, (second[n], events[n]), second[n + 1]));
        assert(first[n + 1] == second[n + 1]);
        assert forall|i: int| 0 <= i < first.len() implies first[i] == second[i] by {
            if i <= n {
                assert(first[i] == first.drop_last()[i]);
                assert(second[i] == second.drop_last()[i]);
            }
        }
    }
    assert(first =~= second);
}

/// With a deterministic `apply`, the view an in-memory table holds for
/// aggregate `id` after applying a stream of events (of any aggregates, the
/// table not having seen `id` before) is exactly the view that replaying the
/// events of `id` from the default view folds to.
pub proof fn lemma_memory_view_equals_replay<V, E, F: Fn(V, E) -> V>(
    apply: F,
    default: V,
    id: AggregateId,
    events: Seq<(AggregateId, E)>,
    tables: Seq<Map<AggregateId, V>>,
    replayed: Seq<V>,
)
    requires
        deterministic(apply),
        tables.len() == events.len() + 1,
        !tables[0].contains_key(id),
        forall|i: int|
            0 <= i < events.len() ==> #[trigger] table_step(
                apply,
                default,
                events[i].0,
                events[i].1,
                tables[i],
                tables[i + 1],
            ),
        fold_chain(apply, default, events_of(events, id), replayed),
    ensures
        replayed.last() == view_or_default(tables.last(), id, default),
{
    lemma_shared_memory_view_agrees_with_replay(apply, default, id, events, tables);
    let states = choose|states: Seq<V>|
        fold_chain(apply, default, events_of(events, id), states) && states.last()
            == view_or_default(tables.last(), id, default);
    lemma_fold_chains_agree(apply, default, events_of(events, id), states, replayed);
}

/// A subject is the service name, one `.`, and the handler name, in that
/// order and nothing else.
pub proof fn lemma_subject_layout(service_name: Seq<char>, handler_name: Seq<char>)
    ensures
        endpoint_subject(service_name, handler_name).len() == service_name.len() + 1
            + handler_name.len(),
        endpoint_subject(service_name, handler_name).subrange(0, service_name.len() as int)
            == service_name,
        endpoint_subject(service_name, handler_name)[service_name.len() as int] == '.',
        endpoint_subject(service_name, handler_name).subrange(
            service_name.len() + 1int,
            service_name.len() + 1int + handler_name.len(),
        ) == handler_name,
{
    reveal_strlit(".");
    let subject = endpoint_subject(service_name, handler_name);
    assert(subject.subrange(0, service_name.len() as int) =~= service_name);
    assert(subject.subrange(service_name.len() + 1int, service_name.len() + 1int + handler_name.len())
        =~= handler_name);
}

/// When the aggregate's typed domain error is known as JSON text `t`, an
/// `External` store failure converts to exactly `External(t)`, whatever the
/// failure's display text or other serialization; and a store failure that
/// carries its serialized domain error converts to exactly that.
pub proof fn lemma_domain_error_is_carried(
    message: Seq<char>,
    serialized: Option<Seq<char>>,
    t: Seq<char>,
)
    ensures
        error_from_store_typed(StoreErrorView::External { message, serialized }, Some(t))
            == ErrorView::External(t),
        error_from_store(StoreErrorView::External { message, serialized: Some(t) })
            == ErrorView::External(t),
        error_from_store_typed(StoreErrorView::External { message, serialized: Some(t) }, None)
            == ErrorView::External(t),
{
}

/// A written command is answered with the written aggregate's ID and
/// success; a failed write is answered with the targeted aggregate's ID,
/// failure and an error, whatever the failure was.
pub proof fn lemma_write_reply_names_the_aggregate(
    id: AggregateId,
    written_id: AggregateId,
    err: StoreErrorView,
    typed_external: Option<Seq<char>>,
)
    ensures
        reply_after_write(id, Ok(written_id), typed_external).id == written_id,
        reply_after_write(id, Ok(written_id), typed_external).success,
        reply_after_write(id, Ok(written_id), typed_external).error is None,
        reply_after_write(id, Err(err), typed_external).id == id,
        !reply_after_write(id, Err(err), typed_external).success,
        reply_after_write(id, Err(err), typed_external).error == Some(
            error_from_store_typed(err, typed_external),
        ),
{
}

} // verus!
