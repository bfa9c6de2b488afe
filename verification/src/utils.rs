//! Byte-order, text and timestamp helpers shared by the other modules.

pub mod binary;
pub mod text;
pub mod timestamp;
