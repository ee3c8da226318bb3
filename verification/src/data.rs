//! What the queue shows of the tracks in it.

pub mod thread;
pub mod types;
