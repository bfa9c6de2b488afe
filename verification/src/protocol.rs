//! The replication wire protocol: cursors over byte buffers, frame layouts
//! and the pgoutput message decoder.

pub mod buffer;
pub mod frames;
pub mod messages;
pub mod parser;
