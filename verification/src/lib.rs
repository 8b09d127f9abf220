//! CQRS on top of an event store: command handlers, query handlers and
//! projectors, with the decisions they make verified.
//!
//! The library holds the data that crosses the transport boundary
//! (envelopes, replies and the serializable [`Error`]), the handler
//! descriptions that a registry keeps, and, for each handler kind, the
//! steps taken between the outside operations (decoding, loading from and
//! writing to the store, replaying events, encoding replies).
pub mod error;
pub mod laws;
pub mod nats;
pub mod registry;

pub use error::Error;
pub use registry::CqrsRegistry;
