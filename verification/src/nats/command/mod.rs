//! Command handlers: the aggregate handler and the single-endpoint service
//! handler.
pub mod aggregate_command_handler;
pub mod service_command_handler;

pub use aggregate_command_handler::{AggregateCommandHandler, CommandEnvelope, CommandReply};
pub use service_command_handler::{ServiceCommandHandler, ServiceCommandReply};
