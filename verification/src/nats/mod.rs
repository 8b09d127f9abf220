//! NATS-facing parts of the CQRS layer.
//!
//! Commands and queries travel over core NATS request/reply: a dispatcher
//! registers one endpoint per handler under the subject
//! `<service_name>.<handler_name>` and answers every request.  Projectors
//! run against durable JetStream consumers.  The types here are the data
//! exchanged over those channels and the decisions taken around each outside
//! operation; the transport itself is driven by the embedding application.
pub mod client;
pub mod command;
pub mod command_dispatcher;
pub mod durable_projector_handler;
pub mod projector_runner;
pub mod query;
pub mod query_dispatcher;

pub use command::{AggregateCommandHandler, CommandEnvelope, CommandReply, ServiceCommandHandler};
pub use client::cqrs_client::CqrsClient;
pub use command_dispatcher::{command_subject, NatsCommandDispatcher};
pub use query_dispatcher::{query_subject, NatsQueryDispatcher, QueryEnvelope, QueryReply};
pub use query::LiveViewQuery;
pub use durable_projector_handler::DurableProjectorHandler;
pub use projector_runner::NatsProjectorRunner;

use crate::error::{StoreError, StoreErrorView};
use vstd::prelude::*;

verus! {

/// The NATS client type, carried through the library as an opaque value.
#[verifier::external_type_specification]
#[verifier::external_body]
pub struct ExNatsClient(async_nats::Client);

/// `Clone` for the NATS client, which hands out another handle to the same
/// connection.  Nothing is claimed of the result: it is opaque here.
pub assume_specification[ <async_nats::Client as Clone>::clone ](client: &async_nats::Client) -> async_nats::Client;

/// The identifier of an aggregate instance (the 128 bits of its UUID).
pub type AggregateId = u128;

/// The nil identifier (all bits zero).
pub const NIL_ID: AggregateId = 0;

/// The error that a payload which failed to deserialize becomes; `reason` is
/// the deserializer's message.
pub fn format_error(reason: String) -> (e: StoreError)
    ensures
        e@ == StoreErrorView::Format(reason@),
{
    StoreError::Format(reason)
}

/// The outcome of a handler once its reply has been serialized: the bytes,
/// or a format error carrying the serializer's message.
pub fn finish_encoding(encoded: Result<Vec<u8>, String>) -> (r: Result<Vec<u8>, StoreError>)
    ensures
        match encoded {
            Ok(bytes) => r matches Ok(out) && out@ == bytes@,
            Err(reason) => r matches Err(e) && e@ == StoreErrorView::Format(reason@),
        },
{
    match encoded {
        Ok(bytes) => Ok(bytes),
        Err(reason) => Err(format_error(reason)),
    }
}

/// The error a dispatcher reports when the NATS service or one of its
/// endpoints cannot be started; `reason` is the transport's message.
pub fn startup_error(reason: String) -> (e: StoreError)
    ensures
        e@ == StoreErrorView::Internal(reason@),
{
    StoreError::Internal(reason)
}

/// What a dispatcher makes of one finished endpoint task: the task's own
/// result, or an internal error when the task could not be joined (`reason`
/// being the join error's message).
pub fn endpoint_task_result(joined: Result<Result<(), StoreError>, String>) -> (r: Result<(), StoreError>)
    ensures
        match joined {
            Ok(result) => r == result,
            Err(reason) => r matches Err(e) && e@ == StoreErrorView::Internal(reason@),
        },
{
    match joined {
        Ok(result) => result,
        Err(reason) => Err(StoreError::Internal(reason)),
    }
}

} // verus!
