//! Decoded media as it reaches the output side.

pub mod errors;
pub mod metadata;
pub mod playback;
