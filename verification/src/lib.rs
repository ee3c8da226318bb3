//! Real-time audio output: sample encodings, stream formats, device
//! discovery and the producer/consumer transport that carries decoded
//! frames into a backend's playback callback.

pub mod data;
pub mod devices;
pub mod media;
pub mod services;
pub mod ui;
