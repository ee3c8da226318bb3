use vstd::prelude::*;

verus! {

/// Why a media file could not be opened.
#[derive(PartialEq, Eq, Debug, Clone, Copy, Structural)]
pub enum OpenError {
    FileCorrupt,
    UnsupportedFormat,
    Unknown,
}

/// Why a media file could not be closed.
#[derive(PartialEq, Eq, Debug, Clone, Copy, Structural)]
pub enum CloseError {
    Unknown,
}

/// Why decoding could not start.
#[derive(PartialEq, Eq, Debug, Clone, Copy, Structural)]
pub enum PlaybackStartError {
    NothingOpen,
    NothingToPlay,
    Undecodable,
    BrokenContainer,
    ContainerSupportedButNotCodec,
    Unknown,
}

/// Why decoding could not stop.
#[derive(PartialEq, Eq, Debug, Clone, Copy, Structural)]
pub enum PlaybackStopError {
    NothingOpen,
    Unknown,
}

/// Why no further samples could be read.
#[derive(PartialEq, Eq, Debug, Clone, Copy, Structural)]
pub enum PlaybackReadError {
    NothingOpen,
    NeverStarted,
    EOF,
    Unknown,
    DecodeFatal,
}

/// Why the tags of a media file could not be read.
#[derive(PartialEq, Eq, Debug, Clone, Copy, Structural)]
pub enum MetadataError {
    NothingOpen,
    Unknown,
}

/// Why the length of a media file is not known.
#[derive(PartialEq, Eq, Debug, Clone, Copy, Structural)]
pub enum DurationError {
    NothingOpen,
    NeverDecoded,
    Unknown,
}

} // verus!
