//! Services that follow playback from outside.

pub mod mmb;
