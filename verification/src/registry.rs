//! The registry of command handlers, projectors and query handlers.
//!
//! A registry holds the store shared by all handlers and, for each kind of
//! handler, the handlers in the order they were registered.  It is built with
//! the `register_*` methods; dispatchers are then given the handler lists,
//! and each registered projector is started as a background task.
use vstd::prelude::*;

verus! {

/// A registry over the store `S`, holding command handlers `C`, projector
/// handlers `P` and query handlers `Q`.
pub struct CqrsRegistry<S, C, P, Q> {
    store: S,
    command_handlers: Vec<C>,
    projector_handlers: Vec<P>,
    query_handlers: Vec<Q>,
}

impl<S, C, P, Q> CqrsRegistry<S, C, P, Q> {
    /// The backing store.
    pub closed spec fn spec_store(&self) -> S {
        self.store
    }

    /// The command handlers, in registration order.
    pub closed spec fn commands(&self) -> Seq<C> {
        self.command_handlers@
    }

    /// The projector handlers, in registration order.
    pub closed spec fn projectors(&self) -> Seq<P> {
        self.projector_handlers@
    }

    /// The query handlers, in registration order.
    pub closed spec fn queries(&self) -> Seq<Q> {
        self.query_handlers@
    }

    /// Create a new registry backed by the given store, with no handlers.
    pub fn new(store: S) -> (r: Self)
        ensures
            r.spec_store() == store,
            r.commands() == Seq::<C>::empty(),
            r.projectors() == Seq::<P>::empty(),
            r.queries() == Seq::<Q>::empty(),
    {
        CqrsRegistry {
            store,
            command_handlers: Vec::new(),
            projector_handlers: Vec::new(),
            query_handlers: Vec::new(),
        }
    }

    /// Register a command handler after those already registered.
    pub fn register_command(self, handler: C) -> (r: Self)
        ensures
            r.commands() == self.commands().push(handler),
            r.projectors() == self.projectors(),
            r.queries() == self.queries(),
            r.spec_store() == self.spec_store(),
    {
        let mut r = self;
        r.command_handlers.push(handler);
        r
    }

    /// Register a projector handler after those already registered.
    pub fn register_projector(self, handler: P) -> (r: Self)
        ensures
            r.projectors() == self.projectors().push(handler),
            r.commands() == self.commands(),
            r.queries() == self.queries(),
            r.spec_store() == self.spec_store(),
    {
        let mut r = self;
        r.projector_handlers.push(handler);
        r
    }

    /// Register a query handler after those already registered.
    pub fn register_query(self, handler: Q) -> (r: Self)
        ensures
            r.queries() == self.queries().push(handler),
            r.commands() == self.commands(),
            r.projectors() == self.projectors(),
            r.spec_store() == self.spec_store(),
    {
        let mut r = self;
        r.query_handlers.push(handler);
        r
    }

    /// The registered command handlers.
    pub fn command_handlers(&self) -> (r: &[C])
        ensures
            r@ == self.commands(),
    {
        self.command_handlers.as_slice()
    }

    /// The registered projector handlers.
    pub fn projector_handlers(&self) -> (r: &[P])
        ensures
            r@ == self.projectors(),
    {
        self.projector_handlers.as_slice()
    }

    /// The registered query handlers.
    pub fn query_handlers(&self) -> (r: &[Q])
        ensures
            r@ == self.queries(),
    {
        self.query_handlers.as_slice()
    }
}

impl<S: Clone, C, P, Q> CqrsRegistry<S, C, P, Q> {
    /// A clone of the backing store.
    pub fn store(&self) -> (r: S)
        ensures
            cloned(self.spec_store(), r),
    {
        self.store.clone()
    }
}

} // verus!
