//! Logical change-data-capture client library for PostgreSQL-compatible
//! databases: codec, pgoutput decoder, replication state and session rules,
//! and the delivery policies of the event sinks.

pub mod config;
pub mod errors;
pub mod events;
pub mod metrics;
pub mod utils;
pub mod protocol;
pub mod replication;
pub mod tracing_context;
