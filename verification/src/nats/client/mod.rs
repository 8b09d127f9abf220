//! Client-side decisions for sending commands and queries.
pub mod cqrs_client;
