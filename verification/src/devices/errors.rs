use vstd::prelude::*;

verus! {

/// The audio host could not be bound.
#[derive(PartialEq, Eq, Debug, Clone, Copy, Structural)]
pub enum InitializationError {
    Unknown,
}

/// The devices of a host could not be listed.
#[derive(PartialEq, Eq, Debug, Clone, Copy, Structural)]
pub enum ListError {
    Unknown,
}

/// A device could not be resolved.
#[derive(PartialEq, Eq, Debug, Clone, Copy, Structural)]
pub enum FindError {
    /// The host has no such device.
    DeviceDoesNotExist,
    /// The host could not be searched.
    Unknown,
}

/// A device or stream could not say what was asked of it.
#[derive(PartialEq, Eq, Debug, Clone, Copy, Structural)]
pub enum InfoError {
    Unknown,
}

/// A stream could not be opened on a device.
#[derive(PartialEq, Eq, Debug, Clone, Copy, Structural)]
pub enum OpenError {
    /// The format was produced by another backend than the device's.
    InvalidConfigProvider,
    /// The format asks for an encoding that the backend cannot play.
    InvalidSampleFormat,
    /// The native layer refused to build the stream.
    Unknown,
}

/// A frame could not be handed to a stream.
#[derive(PartialEq, Eq, Debug, Clone, Copy, Structural)]
pub enum SubmissionError {
    /// The stream has been closed.
    Closed,
    Unknown,
}

/// A stream could not be closed.
#[derive(PartialEq, Eq, Debug, Clone, Copy, Structural)]
pub enum CloseError {
    Unknown,
}

} // verus!
