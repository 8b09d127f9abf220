//! A single-endpoint command handler and its convenience reply envelope.
//!
//! A service handler receives every command of one command type under a
//! single endpoint: the raw payload is deserialized as the command type and
//! forwarded to the inner handler, whose reply bytes are returned verbatim.
use crate::error::{Error, StoreError, StoreErrorView};
use crate::nats::format_error;
use core::marker::PhantomData;
use vstd::prelude::*;

verus! {

/// A convenience reply envelope for service command handlers.
pub struct ServiceCommandReply<R> {
    /// Whether the command succeeded.
    pub success: bool,
    /// The response data, present when `success` is true.
    pub data: Option<R>,
    /// The structured error, present only when `success` is false.
    pub error: Option<Error>,
}

impl ServiceCommandReply<()> {
    /// A successful reply with no data payload.
    pub fn ok() -> (r: Self)
        ensures
            r.success,
            r.data == Some(()),
            r.error is None,
    {
        ServiceCommandReply { success: true, data: Some(()), error: None }
    }
}

impl<R> ServiceCommandReply<R> {
    /// A successful reply carrying the given data.
    pub fn ok_with(data: R) -> (r: Self)
        ensures
            r.success,
            r.data == Some(data),
            r.error is None,
    {
        ServiceCommandReply { success: true, data: Some(data), error: None }
    }

    /// A failure reply carrying the given error.
    pub fn err(e: Error) -> (r: Self)
        ensures
            !r.success,
            r.data is None,
            r.error == Some(e),
    {
        ServiceCommandReply { success: false, data: None, error: Some(e) }
    }
}

/// Adapter that serves a typed service handler `H` for command type `C`
/// under one endpoint.
pub struct ServiceCommandHandler<H, C> {
    handler: H,
    name: &'static str,
    _marker: PhantomData<C>,
}

impl<H, C> ServiceCommandHandler<H, C> {
    /// The endpoint name.
    pub closed spec fn spec_name(&self) -> &'static str {
        self.name
    }

    /// The wrapped handler.
    pub closed spec fn spec_handler(&self) -> H {
        self.handler
    }

    /// Wrap `handler`, served under the endpoint `name` (the name the handler
    /// gives itself).
    pub fn new(handler: H, name: &'static str) -> (r: Self)
        ensures
            r.spec_handler() == handler,
            r.spec_name() == name,
    {
        ServiceCommandHandler { handler, name, _marker: PhantomData }
    }

    /// The endpoint name of this handler.
    pub fn name(&self) -> (r: &'static str)
        ensures
            r == self.spec_name(),
    {
        self.name
    }

    /// The wrapped handler.
    pub fn handler(&self) -> (r: &H)
        ensures
            *r == self.spec_handler(),
    {
        &self.handler
    }
}

/// After deserializing the payload as the command type: forward it to the
/// inner handler (`Ok`), or fail with a format error carrying the
/// deserializer's message.
pub fn after_command_decode(decoded: Result<(), String>) -> (r: Result<(), StoreError>)
    ensures
        match decoded {
            Ok(()) => r is Ok,
            Err(reason) => r matches Err(e) && e@ == StoreErrorView::Format(reason@),
        },
{
    match decoded {
        Ok(()) => Ok(()),
        Err(reason) => Err(format_error(reason)),
    }
}

} // verus!
