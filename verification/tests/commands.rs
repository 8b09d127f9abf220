use esrc_cqrs::error::{Error, StoreError};
use esrc_cqrs::nats::client::cqrs_client::command_result;
use esrc_cqrs::nats::command::aggregate_command_handler::{
    after_encode, after_envelope, after_load, after_write, CommandStep,
};
use esrc_cqrs::nats::command::service_command_handler::{after_command_decode, ServiceCommandReply};
use esrc_cqrs::nats::command_dispatcher::{respond_to_command, CommandResponse, CMD_SERVICE_VERSION};
use esrc_cqrs::nats::{
    command_subject, endpoint_task_result, finish_encoding, startup_error, AggregateCommandHandler,
    CommandEnvelope, CommandReply, ServiceCommandHandler, NIL_ID,
};

fn encoded_reply(step: CommandStep) -> CommandReply {
    match step {
        CommandStep::Encode { reply } => reply,
        _ => panic!("expected a reply to encode"),
    }
}

#[test]
fn command_subject_joins_service_and_handler() {
    assert_eq!(command_subject("t-cmd-ok-svc", "Counter"), "t-cmd-ok-svc.Counter");
    assert_eq!(command_subject("", ""), ".");
    assert_eq!(CMD_SERVICE_VERSION, "0.1.0");
}

#[test]
fn aggregate_handler_keeps_its_name() {
    let h = AggregateCommandHandler::<u8>::new("Counter");
    assert_eq!(h.name(), "Counter");
    let envelope = CommandEnvelope { id: 42, command: "Increment" };
    assert_eq!(envelope.id, 42);
}

#[test]
fn envelope_decoding_leads_to_load_or_format_error() {
    assert!(matches!(after_envelope(Ok(9)), CommandStep::Load { id: 9 }));
    match after_envelope(Err("expected value at line 1 column 1".to_string())) {
        CommandStep::Finish { outcome: Err(StoreError::Format(m)) } => {
            assert_eq!(m, "expected value at line 1 column 1")
        },
        _ => panic!("a malformed payload must end in a format error"),
    }
}

#[test]
fn load_failure_is_propagated_unchanged() {
    assert!(matches!(after_load(3, Ok(())), CommandStep::Write { id: 3 }));
    match after_load(3, Err(StoreError::Internal("no stream".to_string()))) {
        CommandStep::Finish { outcome: Err(e) } => assert_eq!(e, StoreError::Internal("no stream".to_string())),
        _ => panic!("a load failure must end the request"),
    }
}

#[test]
fn successful_write_is_answered_with_success() {
    let reply = encoded_reply(after_write(11, Ok(11), None));
    assert_eq!(reply, CommandReply { id: 11, success: true, error: None });
    assert_eq!(command_result(reply), Ok(11));
}

#[test]
fn failed_write_is_answered_with_the_aggregate_error() {
    let reply = encoded_reply(after_write(
        12,
        Err(StoreError::External { message: "forced failure for testing".to_string(), serialized: None }),
        Some("\"ForcedFailure\"".to_string()),
    ));
    assert_eq!(reply.id, 12);
    assert!(!reply.success);
    let err = reply.error.clone().expect("error field should be populated");
    assert_eq!(err.downcast_external::<String>(), Some("ForcedFailure".to_string()));
    assert_eq!(command_result(reply), Err(Error::External("\"ForcedFailure\"".to_string())));
}

#[test]
fn conflicting_write_is_answered_with_conflict() {
    let reply = encoded_reply(after_write(13, Err(StoreError::Conflict), None));
    assert_eq!(reply, CommandReply { id: 13, success: false, error: Some(Error::Conflict) });
}

#[test]
fn encoding_finishes_the_request() {
    match after_encode(Ok(vec![1, 2, 3])) {
        CommandStep::Finish { outcome: Ok(bytes) } => assert_eq!(bytes, vec![1, 2, 3]),
        _ => panic!("expected the encoded bytes"),
    }
    match after_encode(Err("key must be a string".to_string())) {
        CommandStep::Finish { outcome: Err(e) } => assert_eq!(e, StoreError::Format("key must be a string".to_string())),
        _ => panic!("expected a format error"),
    }
    assert_eq!(finish_encoding(Ok(vec![7])), Ok(vec![7]));
}

#[test]
fn dispatcher_answers_failures_with_a_command_reply() {
    match respond_to_command(Ok(b"{}".to_vec())) {
        CommandResponse::Reply(bytes) => assert_eq!(bytes, b"{}".to_vec()),
        _ => panic!("handler replies are sent verbatim"),
    }
    match respond_to_command(Err("bad envelope format (eof)".to_string())) {
        CommandResponse::Failure(reply) => {
            assert_eq!(reply.id, NIL_ID);
            assert!(!reply.success);
            assert_eq!(reply.error, Some(Error::Internal("bad envelope format (eof)".to_string())));
            assert_eq!(command_result(reply), Err(Error::Internal("bad envelope format (eof)".to_string())));
        },
        _ => panic!("handler failures are answered with a failure reply"),
    }
}

#[test]
fn dispatcher_startup_and_join_errors() {
    assert_eq!(startup_error("no responders".to_string()), StoreError::Internal("no responders".to_string()));
    assert_eq!(endpoint_task_result(Ok(Ok(()))), Ok(()));
    assert_eq!(endpoint_task_result(Ok(Err(StoreError::Invalid))), Err(StoreError::Invalid));
    assert_eq!(
        endpoint_task_result(Err("task panicked".to_string())),
        Err(StoreError::Internal("task panicked".to_string()))
    );
}

#[test]
fn service_command_replies() {
    let ok = ServiceCommandReply::ok();
    assert!(ok.success && ok.data == Some(()) && ok.error.is_none());
    let with = ServiceCommandReply::ok_with(77u128);
    assert!(with.success && with.data == Some(77) && with.error.is_none());
    let err: ServiceCommandReply<u128> = ServiceCommandReply::err(Error::Conflict);
    assert!(!err.success && err.data.is_none() && err.error == Some(Error::Conflict));
}

#[test]
fn service_handler_forwards_decoded_commands() {
    let h = ServiceCommandHandler::<&str, u8>::new("inner", "CafeService");
    assert_eq!(h.name(), "CafeService");
    assert_eq!(*h.handler(), "inner");
    assert_eq!(after_command_decode(Ok(())), Ok(()));
    assert_eq!(
        after_command_decode(Err("unknown variant".to_string())),
        Err(StoreError::Format("unknown variant".to_string()))
    );
}

#[test]
fn command_result_without_error_reports_missing_error() {
    let reply = CommandReply { id: 1, success: false, error: None };
    assert_eq!(command_result(reply), Err(Error::Internal("command failed but no error present".to_string())));
}
