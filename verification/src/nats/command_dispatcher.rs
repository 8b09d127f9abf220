//! Decisions of the NATS command dispatcher.
//!
//! The dispatcher starts one service named after the service group, adds one
//! endpoint per registered command handler (named by the handler), and
//! answers each request with the handler's reply.  A handler failure is
//! still answered with a [`CommandReply`], so callers always decode the same
//! shape whatever the outcome.
use crate::error::{Error, ErrorView};
use crate::nats::command::aggregate_command_handler::{CommandReply, CommandReplyView};
use crate::nats::NIL_ID;
use vstd::prelude::*;
use vstd::string::*;

verus! {

/// The NATS command dispatcher: one service named `service_name`, with one
/// endpoint per registered command handler.
pub struct NatsCommandDispatcher {
    client: async_nats::Client,
    service_name: String,
}

impl NatsCommandDispatcher {
    /// The client the service is created on.
    pub closed spec fn spec_client(&self) -> async_nats::Client {
        self.client
    }

    /// The service group name.
    pub closed spec fn spec_service_name(&self) -> Seq<char> {
        self.service_name@
    }

    /// Create a new dispatcher using the given NATS client and service name.
    pub fn new(client: async_nats::Client, service_name: String) -> (r: Self)
        ensures
            r.spec_client() == client,
            r.spec_service_name() == service_name@,
    {
        NatsCommandDispatcher { client, service_name }
    }

    /// The client the service is created on.
    pub fn client(&self) -> (r: &async_nats::Client)
        ensures
            *r == self.spec_client(),
    {
        &self.client
    }

    /// The service group name.
    pub fn service_name(&self) -> (r: &str)
        ensures
            r@ == self.spec_service_name(),
    {
        self.service_name.as_str()
    }
}

/// The version announced by the command service.
pub const CMD_SERVICE_VERSION: &'static str = "0.1.0";

/// The subject of an endpoint: `<service_name>.<handler_name>`.
pub open spec fn endpoint_subject(service_name: Seq<char>, handler_name: Seq<char>) -> Seq<char> {
    service_name + "."@ + handler_name
}

/// Build the full NATS subject for a command endpoint.
///
/// Pattern: `<service_name>.<handler_name>`.
pub fn command_subject(service_name: &str, handler_name: &str) -> (subject: String)
    ensures
        subject@ == endpoint_subject(service_name@, handler_name@),
        subject@.len() == service_name@.len() + 1 + handler_name@.len(),
        subject@.subrange(0, service_name@.len() as int) == service_name@,
        subject@[service_name@.len() as int] == '.',
        subject@.subrange(service_name@.len() + 1int, subject@.len() as int) == handler_name@,
{
    proof {
        reveal_strlit(".");
    }
    let mut subject = String::from_str(service_name);
    subject.append(".");
    subject.append(handler_name);
    subject
}

/// The failure reply sent when a command handler returns an error whose
/// display text is `message`.
pub open spec fn command_failure_reply(message: Seq<char>) -> CommandReplyView {
    CommandReplyView { id: NIL_ID, success: false, error: Some(ErrorView::Internal(message)) }
}

/// The answer to one command request.
pub enum CommandResponse {
    /// The handler's reply bytes, sent verbatim.
    Reply(Vec<u8>),
    /// A failure reply, to be serialized and sent.
    Failure(CommandReply),
}

/// Decide the answer to a command request from the handler's outcome: its
/// reply bytes, or the display text of its error.
pub fn respond_to_command(outcome: Result<Vec<u8>, String>) -> (response: CommandResponse)
    ensures
        match outcome {
            Ok(bytes) => response matches CommandResponse::Reply(out) && out@ == bytes@,
            Err(message) => response matches CommandResponse::Failure(reply)
                && reply@ == command_failure_reply(message@) && reply@.well_formed(),
        },
{
    match outcome {
        Ok(bytes) => CommandResponse::Reply(bytes),
        Err(message) => CommandResponse::Failure(
            CommandReply { id: NIL_ID, success: false, error: Some(Error::Internal(message)) },
        ),
    }
}

} // verus!
