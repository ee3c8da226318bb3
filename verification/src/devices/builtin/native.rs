use crate::devices::format::SampleFormat;
use vstd::prelude::*;

verus! {

/// The sample encodings that the native audio layer tells apart.
#[derive(PartialEq, Eq, Debug, Clone, Copy, Structural)]
pub enum NativeSampleFormat {
    I8,
    I16,
    I32,
    I64,
    U8,
    U16,
    U32,
    U64,
    F32,
    F64,
    /// An encoding that the native layer knows and this library does not.
    Other,
}

/// The buffer sizes that a native configuration admits, in frames.
#[derive(PartialEq, Eq, Debug, Clone, Copy, Structural)]
pub enum NativeBufferSize {
    Range { min: u32, max: u32 },
    Unknown,
}

/// A range of configurations that a native device reports as playable.
#[derive(PartialEq, Eq, Debug, Clone, Copy, Structural)]
pub struct NativeConfigRange {
    pub channels: u16,
    pub min_sample_rate: u32,
    pub max_sample_rate: u32,
    pub buffer_size: NativeBufferSize,
    pub sample_format: NativeSampleFormat,
}

/// The configuration that a native device plays by default.
#[derive(PartialEq, Eq, Debug, Clone, Copy, Structural)]
pub struct NativeConfig {
    pub channels: u16,
    pub sample_rate: u32,
    pub buffer_size: NativeBufferSize,
    pub sample_format: NativeSampleFormat,
}

/// The buffer size that a native stream is asked for.
#[derive(PartialEq, Eq, Debug, Clone, Copy, Structural)]
pub enum StreamBufferSize {
    /// Whatever the device prefers.
    Default,
    /// Exactly this many frames.
    Fixed(u32),
}

/// What the native layer is told when a stream is built.
#[derive(PartialEq, Eq, Debug, Clone, Copy, Structural)]
pub struct StreamConfig {
    pub channels: u16,
    pub sample_rate: u32,
    pub buffer_size: StreamBufferSize,
}

/// The canonical encoding that a native encoding is played as.
pub open spec fn canonical_format(format: NativeSampleFormat) -> SampleFormat {
    match format {
        NativeSampleFormat::I8 => SampleFormat::Signed8,
        NativeSampleFormat::I16 => SampleFormat::Signed16,
        NativeSampleFormat::I32 => SampleFormat::Signed32,
        NativeSampleFormat::U8 => SampleFormat::Unsigned8,
        NativeSampleFormat::U16 => SampleFormat::Unsigned16,
        NativeSampleFormat::U32 => SampleFormat::Unsigned32,
        NativeSampleFormat::F32 => SampleFormat::Float32,
        NativeSampleFormat::F64 => SampleFormat::Float64,
        NativeSampleFormat::I64 => SampleFormat::Unsupported,
        NativeSampleFormat::U64 => SampleFormat::Unsupported,
        NativeSampleFormat::Other => SampleFormat::Unsupported,
    }
}

/// The native encoding that a canonical encoding is handed over as.
///
/// `Unsupported` has no native counterpart; it is given `U16` so that the
/// mapping is total.
pub open spec fn native_format(format: SampleFormat) -> NativeSampleFormat {
    match format {
        SampleFormat::Signed8 => NativeSampleFormat::I8,
        SampleFormat::Signed16 => NativeSampleFormat::I16,
        SampleFormat::Signed32 => NativeSampleFormat::I32,
        SampleFormat::Unsigned8 => NativeSampleFormat::U8,
        SampleFormat::Unsigned16 => NativeSampleFormat::U16,
        SampleFormat::Unsigned32 => NativeSampleFormat::U32,
        SampleFormat::Float32 => NativeSampleFormat::F32,
        SampleFormat::Float64 => NativeSampleFormat::F64,
        SampleFormat::Unsupported => NativeSampleFormat::U16,
    }
}

} // verus!
