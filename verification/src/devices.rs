//! Output devices: what they can play, how they are found and how a
//! stream is opened on one of them.

pub mod builtin;
pub mod errors;
pub mod format;
