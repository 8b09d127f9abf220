//! The generic aggregate command handler.
//!
//! Handling one command request goes through four outside operations, in
//! order: decode the [`CommandEnvelope`], load the aggregate root, write the
//! command (process it and publish the resulting event), and encode the
//! [`CommandReply`].  After each of them the embedding application calls the
//! matching `after_*` function, which says what to do next.
use crate::error::{convert_store_error, error_from_store_typed, Error, ErrorView, StoreError, StoreErrorView};
use crate::nats::{finish_encoding, format_error, AggregateId};
use core::marker::PhantomData;
use vstd::prelude::*;

verus! {

/// A command envelope: the targeted aggregate and the command for it.
pub struct CommandEnvelope<C> {
    /// The ID of the aggregate instance this command targets.
    pub id: AggregateId,
    /// The actual command to process.
    pub command: C,
}

/// The reply sent back after processing a command.
#[derive(Debug, Clone, PartialEq, Eq)]
pub struct CommandReply {
    /// The aggregate ID that was targeted.
    pub id: AggregateId,
    /// Whether the command succeeded.
    pub success: bool,
    /// The structured error, present only when `success` is false.
    pub error: Option<Error>,
}

/// The mathematical value of a [`CommandReply`].
pub struct CommandReplyView {
    pub id: AggregateId,
    pub success: bool,
    pub error: Option<ErrorView>,
}

impl CommandReplyView {
    /// A reply says it succeeded exactly when it carries no error.
    pub open spec fn well_formed(self) -> bool {
        self.success <==> self.error is None
    }
}

pub open spec fn option_error_view(e: Option<Error>) -> Option<ErrorView> {
    match e {
        Some(x) => Some(x@),
        None => None,
    }
}

pub open spec fn option_text_view(t: Option<String>) -> Option<Seq<char>> {
    match t {
        Some(x) => Some(x@),
        None => None,
    }
}

impl View for CommandReply {
    type V = CommandReplyView;

    open spec fn view(&self) -> CommandReplyView {
        CommandReplyView { id: self.id, success: self.success, error: option_error_view(self.error) }
    }
}

/// The reply to a command whose write succeeded (for the aggregate `written`)
/// or failed (with `err`, the aggregate's typed error being `typed_external`
/// when known).
pub open spec fn reply_after_write(
    id: AggregateId,
    written: Result<AggregateId, StoreErrorView>,
    typed_external: Option<Seq<char>>,
) -> CommandReplyView {
    match written {
        Ok(written_id) => CommandReplyView { id: written_id, success: true, error: None },
        Err(err) => CommandReplyView {
            id: id,
            success: false,
            error: Some(error_from_store_typed(err, typed_external)),
        },
    }
}

pub open spec fn store_result_view<T>(r: Result<T, StoreError>) -> Result<T, StoreErrorView> {
    match r {
        Ok(x) => Ok(x),
        Err(e) => Err(e@),
    }
}

/// A generic command handler for event-sourced aggregates of type `A`.
///
/// It decodes a [`CommandEnvelope`] of the aggregate's command type, loads the
/// aggregate, writes the command, and answers with a [`CommandReply`].
pub struct AggregateCommandHandler<A> {
    handler_name: &'static str,
    _phantom: PhantomData<A>,
}

impl<A> AggregateCommandHandler<A> {
    /// The routing name of this handler.
    pub closed spec fn spec_name(&self) -> &'static str {
        self.handler_name
    }

    /// Create a new handler with the given routing name.
    pub fn new(handler_name: &'static str) -> (r: Self)
        ensures
            r.spec_name() == handler_name,
    {
        AggregateCommandHandler { handler_name, _phantom: PhantomData }
    }

    /// The name used to route commands to this handler.
    pub fn name(&self) -> (r: &'static str)
        ensures
            r == self.spec_name(),
    {
        self.handler_name
    }
}

/// What the aggregate command handler does next.
pub enum CommandStep {
    /// Load the aggregate root with this ID.
    Load { id: AggregateId },
    /// Process the decoded command on the loaded root and publish the event.
    Write { id: AggregateId },
    /// Serialize this reply.
    Encode { reply: CommandReply },
    /// Stop, with this result for the request.
    Finish { outcome: Result<Vec<u8>, StoreError> },
}

/// After decoding the envelope: load its aggregate, or stop with a format
/// error carrying the deserializer's message.
pub fn after_envelope(decoded: Result<AggregateId, String>) -> (step: CommandStep)
    ensures
        match decoded {
            Ok(id) => step == (CommandStep::Load { id }),
            Err(reason) => step matches CommandStep::Finish { outcome: Err(e) }
                && e@ == StoreErrorView::Format(reason@),
        },
{
    match decoded {
        Ok(id) => CommandStep::Load { id },
        Err(reason) => CommandStep::Finish { outcome: Err(format_error(reason)) },
    }
}

/// After loading the root of `id`: write the command, or stop with the
/// store's error unchanged.
pub fn after_load(id: AggregateId, loaded: Result<(), StoreError>) -> (step: CommandStep)
    ensures
        match loaded {
            Ok(()) => step == (CommandStep::Write { id }),
            Err(err) => step matches CommandStep::Finish { outcome: Err(e) } && e == err,
        },
{
    match loaded {
        Ok(()) => CommandStep::Write { id },
        Err(err) => CommandStep::Finish { outcome: Err(err) },
    }
}

/// After writing the command for `id`: encode the reply.  A failed write is
/// answered, not propagated: the reply says `success: false` and carries the
/// converted error.
pub fn after_write(
    id: AggregateId,
    written: Result<AggregateId, StoreError>,
    typed_external: Option<String>,
) -> (step: CommandStep)
    ensures
        step matches CommandStep::Encode { reply } && reply@ == reply_after_write(
            id,
            store_result_view(written),
            option_text_view(typed_external),
        ),
        step matches CommandStep::Encode { reply } && reply@.well_formed(),
        step matches CommandStep::Encode { reply } && match written {
            Ok(written_id) => reply.id == written_id && reply.success && reply.error is None,
            Err(_) => reply.id == id && !reply.success && reply.error is Some,
        },
{
    let reply = match written {
        Ok(written_id) => CommandReply { id: written_id, success: true, error: None },
        Err(err) => CommandReply {
            id,
            success: false,
            error: Some(convert_store_error(err, typed_external)),
        },
    };
    CommandStep::Encode { reply }
}

/// After encoding the reply: stop with the bytes, or with a format error
/// carrying the serializer's message.
pub fn after_encode(encoded: Result<Vec<u8>, String>) -> (step: CommandStep)
    ensures
        match encoded {
            Ok(bytes) => step matches CommandStep::Finish { outcome: Ok(out) } && out@ == bytes@,
            Err(reason) => step matches CommandStep::Finish { outcome: Err(e) }
                && e@ == StoreErrorView::Format(reason@),
        },
{
    CommandStep::Finish { outcome: finish_encoding(encoded) }
}

} // verus!
