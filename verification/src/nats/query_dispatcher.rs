//! Query envelopes and replies, and the decisions of the NATS query
//! dispatcher.
//!
//! The query dispatcher mirrors the command dispatcher: one endpoint per
//! query handler under `<service_name>.<handler_name>`, and a handler failure
//! answered with a [`QueryReply`] that says `success: false`.
use crate::error::{Error, ErrorView};
use crate::nats::command::aggregate_command_handler::option_error_view;
use crate::nats::command_dispatcher::endpoint_subject;
use crate::nats::AggregateId;
use vstd::prelude::*;
use vstd::string::*;

verus! {

/// A query envelope: the aggregate instance to query.
#[derive(Debug, Clone, Copy, PartialEq, Eq)]
pub struct QueryEnvelope {
    /// The ID of the aggregate instance to query.
    pub id: AggregateId,
}

/// The reply sent back after processing a query.
#[derive(Debug, Clone, PartialEq, Eq)]
pub struct QueryReply {
    /// Whether the query succeeded.
    pub success: bool,
    /// The query result as JSON text, present when `success` is true.
    pub data: Option<String>,
    /// The structured error, present only when `success` is false.
    pub error: Option<Error>,
}

/// The mathematical value of a [`QueryReply`].
pub struct QueryReplyView {
    pub success: bool,
    pub data: Option<Seq<char>>,
    pub error: Option<ErrorView>,
}

impl QueryReplyView {
    /// A successful reply carries data and no error; a failed one carries an
    /// error and no data.
    pub open spec fn well_formed(self) -> bool {
        &&& self.success <==> self.error is None
        &&& self.success <==> self.data is Some
    }
}

impl View for QueryReply {
    type V = QueryReplyView;

    open spec fn view(&self) -> QueryReplyView {
        QueryReplyView {
            success: self.success,
            data: match self.data {
                Some(d) => Some(d@),
                None => None,
            },
            error: option_error_view(self.error),
        }
    }
}

/// The reply to a query that produced the JSON value `data`.
pub open spec fn query_success_reply(data: Seq<char>) -> QueryReplyView {
    QueryReplyView { success: true, data: Some(data), error: None }
}

/// The failure reply sent when a query handler returns an error whose display
/// text is `message`.
pub open spec fn query_failure_reply(message: Seq<char>) -> QueryReplyView {
    QueryReplyView { success: false, data: None, error: Some(ErrorView::Internal(message)) }
}

impl QueryReply {
    /// A successful reply carrying the JSON text `data`.
    pub fn with_data(data: String) -> (r: Self)
        ensures
            r@ == query_success_reply(data@),
            r@.well_formed(),
    {
        QueryReply { success: true, data: Some(data), error: None }
    }
}

/// The NATS query dispatcher: one service named `service_name`, with one
/// endpoint per registered query handler.
pub struct NatsQueryDispatcher {
    client: async_nats::Client,
    service_name: String,
}

impl NatsQueryDispatcher {
    /// The client the service is created on.
    pub closed spec fn spec_client(&self) -> async_nats::Client {
        self.client
    }

    /// The service group name.
    pub closed spec fn spec_service_name(&self) -> Seq<char> {
        self.service_name@
    }

    /// Create a new dispatcher using the given NATS client and service name.
    pub fn new(client: async_nats::Client, service_name: String) -> (r: Self)
        ensures
            r.spec_client() == client,
            r.spec_service_name() == service_name@,
    {
        NatsQueryDispatcher { client, service_name }
    }

    /// The client the service is created on.
    pub fn client(&self) -> (r: &async_nats::Client)
        ensures
            *r == self.spec_client(),
    {
        &self.client
    }

    /// The service group name.
    pub fn service_name(&self) -> (r: &str)
        ensures
            r@ == self.spec_service_name(),
    {
        self.service_name.as_str()
    }
}

/// The version announced by the query service.
pub const QUERY_SERVICE_VERSION: &'static str = "0.1.0";

/// Build the full NATS subject for a query endpoint.
///
/// Pattern: `<service_name>.<handler_name>`.
pub fn query_subject(service_name: &str, handler_name: &str) -> (subject: String)
    ensures
        subject@ == endpoint_subject(service_name@, handler_name@),
        subject@.len() == service_name@.len() + 1 + handler_name@.len(),
        subject@.subrange(0, service_name@.len() as int) == service_name@,
        subject@[service_name@.len() as int] == '.',
        subject@.subrange(service_name@.len() + 1int, subject@.len() as int) == handler_name@,
{
    proof {
        reveal_strlit(".");
    }
    let mut subject = String::from_str(service_name);
    subject.append(".");
    subject.append(handler_name);
    subject
}

/// The answer to one query request.
pub enum QueryResponse {
    /// The handler's reply bytes, sent verbatim.
    Reply(Vec<u8>),
    /// A failure reply, to be serialized and sent.
    Failure(QueryReply),
}

/// Decide the answer to a query request from the handler's outcome: its
/// reply bytes, or the display text of its error.
pub fn respond_to_query(outcome: Result<Vec<u8>, String>) -> (response: QueryResponse)
    ensures
        match outcome {
            Ok(bytes) => response matches QueryResponse::Reply(out) && out@ == bytes@,
            Err(message) => response matches QueryResponse::Failure(reply)
                && reply@ == query_failure_reply(message@) && reply@.well_formed(),
        },
{
    match outcome {
        Ok(bytes) => QueryResponse::Reply(bytes),
        Err(message) => QueryResponse::Failure(
            QueryReply { success: false, data: None, error: Some(Error::Internal(message)) },
        ),
    }
}

} // verus!
