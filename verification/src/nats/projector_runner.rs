//! A runner that drives one projector handler against the event store.
use vstd::prelude::*;

verus! {

/// Wraps a projector handler `H`; running it delegates to the handler.
pub struct NatsProjectorRunner<H> {
    handler: H,
}

impl<H> NatsProjectorRunner<H> {
    /// The wrapped handler.
    pub closed spec fn spec_handler(&self) -> H {
        self.handler
    }

    /// Create a new runner wrapping the given handler.
    pub fn new(handler: H) -> (r: Self)
        ensures
            r.spec_handler() == handler,
    {
        NatsProjectorRunner { handler }
    }

    /// The wrapped handler.
    pub fn handler(&self) -> (r: &H)
        ensures
            *r == self.spec_handler(),
    {
        &self.handler
    }
}

} // verus!
