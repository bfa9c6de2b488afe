//! Delivery of events to sinks: what is sent, when a failure is tried again,
//! and when it is given up.

pub mod event_formatter;
pub mod hook0;
pub mod hook0_error;
pub mod http;
pub mod json;
pub mod pg_type_conversion;
pub mod registry;
pub mod sink;
pub mod stdout;
