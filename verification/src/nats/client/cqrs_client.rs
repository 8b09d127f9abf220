//! Decisions of the CQRS client.
//!
//! The client builds the envelope, sends it as a NATS request to
//! `<service_name>.<handler_name>` and decodes the reply.  Every failure along
//! that exchange becomes an [`Error`]; the `dispatch` forms then turn a
//! decoded reply into a plain `Result`.
use crate::error::{error_message, Error, ErrorView};
use crate::nats::command::aggregate_command_handler::{CommandReply, CommandReplyView};
use crate::nats::query_dispatcher::{QueryReply, QueryReplyView};
use crate::nats::AggregateId;
use vstd::prelude::*;
use vstd::std_specs::convert::FromSpecImpl;
use vstd::string::*;

verus! {

/// A CQRS client over a NATS connection: it builds envelopes and subjects,
/// sends requests and decodes replies.
#[derive(Clone, Debug)]
pub struct CqrsClient {
    inner: async_nats::Client,
}

impl CqrsClient {
    /// The wrapped NATS client.
    pub closed spec fn spec_inner(&self) -> async_nats::Client {
        self.inner
    }

    /// Create a new client wrapping the given NATS client.
    pub fn new(client: async_nats::Client) -> (r: Self)
        ensures
            r.spec_inner() == client,
    {
        CqrsClient { inner: client }
    }

    /// The underlying NATS client.
    pub fn inner(&self) -> (r: &async_nats::Client)
        ensures
            *r == self.spec_inner(),
    {
        &self.inner
    }
}

impl From<async_nats::Client> for CqrsClient {
    fn from(client: async_nats::Client) -> (r: Self)
        ensures
            r.spec_inner() == client,
    {
        CqrsClient::new(client)
    }
}

impl FromSpecImpl<async_nats::Client> for CqrsClient {
    open spec fn obeys_from_spec() -> bool {
        true
    }

    closed spec fn from_spec(client: async_nats::Client) -> Self {
        CqrsClient { inner: client }
    }
}

/// The part of a request/reply exchange that failed.
#[derive(Debug, Clone, Copy, PartialEq, Eq)]
pub enum CallStage {
    /// Serializing the request envelope.
    Encoding,
    /// Sending the request or waiting for its reply.
    Requesting,
    /// Deserializing the reply envelope.
    DecodingReply,
    /// Deserializing the data carried by a successful query reply.
    DecodingData,
}

/// The error for a failed exchange; `reason` is the failing library's
/// message.  Encoding the request and decoding a query's data are format
/// errors; a failed request and a reply that does not deserialize are
/// internal errors.
pub fn call_error(stage: CallStage, reason: String) -> (e: Error)
    ensures
        e@ == match stage {
            CallStage::Encoding => ErrorView::Format(reason@),
            CallStage::Requesting => ErrorView::Internal(reason@),
            CallStage::DecodingReply => ErrorView::Internal(reason@),
            CallStage::DecodingData => ErrorView::Format(reason@),
        },
{
    match stage {
        CallStage::Encoding => Error::Format(reason),
        CallStage::Requesting => Error::Internal(reason),
        CallStage::DecodingReply => Error::Internal(reason),
        CallStage::DecodingData => Error::Format(reason),
    }
}

/// What dispatching a command makes of its reply: the aggregate ID when it
/// succeeded, otherwise the reply's error (or an internal error saying that
/// none was present).
pub open spec fn command_outcome(reply: CommandReplyView) -> Result<AggregateId, ErrorView> {
    if reply.success {
        Ok(reply.id)
    } else {
        match reply.error {
            Some(e) => Err(e),
            None => Err(ErrorView::Internal("command failed but no error present"@)),
        }
    }
}

/// What dispatching a query makes of its reply: the JSON text of its data
/// when it succeeded with data, otherwise an internal error.  For a failed
/// reply, the internal error carries the message of the reply's error (or
/// says that none was present).
pub open spec fn query_outcome(reply: QueryReplyView) -> Result<Seq<char>, ErrorView> {
    if !reply.success {
        match reply.error {
            Some(e) => Err(ErrorView::Internal(error_message(e))),
            None => Err(ErrorView::Internal("query failed but no error present"@)),
        }
    } else {
        match reply.data {
            Some(d) => Ok(d),
            None => Err(ErrorView::Internal("query succeeded but returned no data"@)),
        }
    }
}

pub open spec fn result_view<T>(r: Result<T, Error>) -> Result<T, ErrorView> {
    match r {
        Ok(x) => Ok(x),
        Err(e) => Err(e@),
    }
}

pub open spec fn text_result_view(r: Result<String, Error>) -> Result<Seq<char>, ErrorView> {
    match r {
        Ok(x) => Ok(x@),
        Err(e) => Err(e@),
    }
}

/// Turn a command reply into `Ok(reply.id)` on success, or into the error it
/// carries.
pub fn command_result(reply: CommandReply) -> (r: Result<AggregateId, Error>)
    ensures
        result_view(r) == command_outcome(reply@),
{
    if reply.success {
        Ok(reply.id)
    } else {
        match reply.error {
            Some(e) => Err(e),
            None => Err(Error::Internal(String::from_str("command failed but no error present"))),
        }
    }
}

/// Turn a query reply into the JSON text of its data on success, or into an
/// internal error.
pub fn query_result(reply: QueryReply) -> (r: Result<String, Error>)
    ensures
        text_result_view(r) == query_outcome(reply@),
{
    if !reply.success {
        match reply.error {
            Some(e) => Err(Error::Internal(e.message())),
            None => Err(Error::Internal(String::from_str("query failed but no error present"))),
        }
    } else {
        match reply.data {
            Some(d) => Ok(d),
            None => Err(Error::Internal(String::from_str("query succeeded but returned no data"))),
        }
    }
}

} // verus!
