//! A projector handler backed by a durable JetStream consumer.
//!
//! The durable name is both the handler's name and the name of the consumer,
//! so the projector resumes from its last position across restarts.
use vstd::prelude::*;

verus! {

/// A projector `P` driven through a durable consumer named `durable_name`.
pub struct DurableProjectorHandler<P> {
    durable_name: &'static str,
    projector: P,
}

impl<P> DurableProjectorHandler<P> {
    /// The durable consumer name.
    pub closed spec fn spec_name(&self) -> &'static str {
        self.durable_name
    }

    /// The driven projector.
    pub closed spec fn spec_projector(&self) -> P {
        self.projector
    }

    /// Create a new handler with the given durable name and projector.
    ///
    /// The durable name must be unique across all projectors of the
    /// application.
    pub fn new(durable_name: &'static str, projector: P) -> (r: Self)
        ensures
            r.spec_name() == durable_name,
            r.spec_projector() == projector,
    {
        DurableProjectorHandler { durable_name, projector }
    }

    /// The durable consumer name, also the projector's routing name.
    pub fn name(&self) -> (r: &'static str)
        ensures
            r == self.spec_name(),
    {
        self.durable_name
    }

    /// The driven projector.
    pub fn projector(&self) -> (r: &P)
        ensures
            *r == self.spec_projector(),
    {
        &self.projector
    }
}

} // verus!
