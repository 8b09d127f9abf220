use esrc_cqrs::error::{Error, StoreError};
use esrc_cqrs::nats::client::cqrs_client::{call_error, query_result, CallStage};
use esrc_cqrs::nats::query::live_view_query::{
    after_projection, after_query_encode, after_query_envelope, after_replay, fold_events,
    replay_item_verdict, QueryStep, ReplayItem,
};
use esrc_cqrs::nats::query::ViewTable;
use esrc_cqrs::nats::query_dispatcher::{respond_to_query, QueryResponse, QUERY_SERVICE_VERSION};
use esrc_cqrs::nats::{query_subject, LiveViewQuery, QueryEnvelope, QueryReply};

#[test]
fn query_subject_joins_service_and_handler() {
    assert_eq!(query_subject("t-qry-ok-svc", "Counter.GetState"), "t-qry-ok-svc.Counter.GetState");
    assert_eq!(QUERY_SERVICE_VERSION, "0.1.0");
}

#[test]
fn live_view_query_keeps_name_and_projection() {
    let q = LiveViewQuery::<i64, i64, fn(&i64) -> i64>::new("Counter.GetState", |v| *v * 2);
    assert_eq!(q.name(), "Counter.GetState");
    assert_eq!((q.projection())(&21), 42);
    let envelope = QueryEnvelope { id: 5 };
    assert_eq!(envelope.id, 5);
}

#[test]
fn query_steps() {
    assert!(matches!(after_query_envelope(Ok(8)), QueryStep::Fetch { id: 8 }));
    match after_query_envelope(Err("this is not json".to_string())) {
        QueryStep::Finish { outcome: Err(e) } => assert_eq!(e, StoreError::Format("this is not json".to_string())),
        _ => panic!("expected a format error"),
    }
    assert!(matches!(after_replay(Ok(())), QueryStep::Project));
    match after_replay(Err(StoreError::Invalid)) {
        QueryStep::Finish { outcome: Err(e) } => assert_eq!(e, StoreError::Invalid),
        _ => panic!("expected the replay error"),
    }
    match after_projection(Ok("{\"value\":15}".to_string())) {
        QueryStep::Encode { reply } => {
            assert_eq!(reply, QueryReply { success: true, data: Some("{\"value\":15}".to_string()), error: None });
            assert_eq!(query_result(reply), Ok("{\"value\":15}".to_string()));
        },
        _ => panic!("expected a reply to encode"),
    }
    match after_query_encode(Ok(vec![9])) {
        QueryStep::Finish { outcome: Ok(b) } => assert_eq!(b, vec![9]),
        _ => panic!("expected the bytes"),
    }
}

#[test]
fn replay_items() {
    assert_eq!(replay_item_verdict(ReplayItem::Event), Ok(()));
    assert_eq!(replay_item_verdict(ReplayItem::StreamFailed(StoreError::Conflict)), Err(StoreError::Conflict));
    assert_eq!(
        replay_item_verdict(ReplayItem::Undecodable("bad envelope format (x)".to_string())),
        Err(StoreError::Format("bad envelope format (x)".to_string()))
    );
}

#[test]
fn fold_applies_events_in_order() {
    let events = vec![10i64, -3, 1];
    let folded = fold_events(0i64, events, |v: i64, e: i64| v + e);
    assert_eq!(folded, 8);
    let labels = fold_events(String::new(), vec!["a", "b", "c"], |v: String, e: &str| v + e);
    assert_eq!(labels, "abc");
    assert_eq!(fold_events(0i64, Vec::new(), |v: i64, e: i64| v + e), 0);
}

#[test]
fn query_dispatcher_answers_failures_with_a_query_reply() {
    match respond_to_query(Err("internal error (gone)".to_string())) {
        QueryResponse::Failure(reply) => {
            assert!(!reply.success);
            assert!(reply.data.is_none());
            assert_eq!(
                query_result(reply),
                Err(Error::Internal("internal error: internal error (gone)".to_string()))
            );
        },
        _ => panic!("expected a failure reply"),
    }
    match respond_to_query(Ok(vec![1])) {
        QueryResponse::Reply(b) => assert_eq!(b, vec![1]),
        _ => panic!("expected verbatim bytes"),
    }
}

#[test]
fn query_result_edge_cases() {
    let no_error = QueryReply { success: false, data: None, error: None };
    assert_eq!(query_result(no_error), Err(Error::Internal("query failed but no error present".to_string())));
    let no_data = QueryReply { success: true, data: None, error: None };
    assert_eq!(query_result(no_data), Err(Error::Internal("query succeeded but returned no data".to_string())));
    let failed = QueryReply { success: false, data: None, error: Some(Error::Conflict) };
    assert_eq!(query_result(failed), Err(Error::Internal("event transaction failed".to_string())));
}

#[test]
fn call_errors_by_stage() {
    assert_eq!(call_error(CallStage::Encoding, "e".to_string()), Error::Format("e".to_string()));
    assert_eq!(call_error(CallStage::Requesting, "timed out".to_string()), Error::Internal("timed out".to_string()));
    assert_eq!(call_error(CallStage::DecodingReply, "d".to_string()), Error::Internal("d".to_string()));
    assert_eq!(call_error(CallStage::DecodingData, "d".to_string()), Error::Format("d".to_string()));
}

#[test]
fn view_table_applies_events_per_aggregate() {
    let mut table: ViewTable<i64> = ViewTable::new();
    assert_eq!(table.len(), 0);
    assert_eq!(table.snapshot(1), None);
    table.apply_event(1, 0, 10, |v: i64, e: i64| v + e);
    table.apply_event(2, 0, -3, |v: i64, e: i64| v + e);
    table.apply_event(1, 0, 1, |v: i64, e: i64| v + e);
    assert_eq!(table.snapshot(1), Some(&11));
    assert_eq!(table.snapshot(2), Some(&-3));
    assert_eq!(table.snapshot(3), None);
    assert_eq!(table.len(), 2);
    assert_eq!(table.view_or(1, 0), 11);
    assert_eq!(table.view_or(3, 0), 0);
}

#[test]
fn view_table_starts_from_the_default_view() {
    let mut table: ViewTable<Vec<&str>> = ViewTable::new();
    table.apply_event(4, vec!["default"], "Incremented(10)", |mut v: Vec<&str>, e: &str| {
        v.push(e);
        v
    });
    assert_eq!(table.snapshot(4), Some(&vec!["default", "Incremented(10)"]));
}

#[test]
fn memory_view_agrees_with_replay() {
    let events = vec![10i64, -3, 1, 7];
    let mut table: ViewTable<i64> = ViewTable::new();
    for e in events.clone() {
        table.apply_event(9, 0, e, |v: i64, e: i64| v * 2 + e);
    }
    let replayed = fold_events(0i64, events, |v: i64, e: i64| v * 2 + e);
    assert_eq!(table.snapshot(9), Some(&replayed));
    assert_eq!(replayed, 7 + 2 * (1 + 2 * (-3 + 2 * 10)));
}

#[test]
fn shared_memory_view_agrees_with_replay_per_aggregate() {
    let stream = vec![(1u128, 10i64), (2, 5), (1, -3), (3, 8), (2, 1), (1, 1)];
    let mut table: ViewTable<i64> = ViewTable::new();
    for (id, e) in stream.clone() {
        table.apply_event(id, 0, e, |v: i64, e: i64| v * 2 + e);
    }
    for id in [1u128, 2, 3] {
        let own: Vec<i64> = stream.iter().filter(|(i, _)| *i == id).map(|(_, e)| *e).collect();
        let replayed = fold_events(0i64, own, |v: i64, e: i64| v * 2 + e);
        assert_eq!(table.view_or(id, 0), replayed);
    }
    assert_eq!(table.view_or(1, 0), 2 * (2 * 10 - 3) + 1);
}
