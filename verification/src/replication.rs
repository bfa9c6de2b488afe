//! Progress of a replication session and the rules that drive it.

pub mod state;
pub mod session;
