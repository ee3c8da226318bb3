use vstd::prelude::*;

verus! {

/// The encoding of one PCM sample.
///
/// Eight encodings can be played. `Unsupported` stands for every native
/// encoding that has no counterpart among them; it never names a format
/// that a stream can be opened with.
#[derive(PartialEq, Eq, Debug, Clone, Copy, Structural)]
pub enum SampleFormat {
    Float64,
    Float32,
    Signed32,
    Unsigned32,
    Signed16,
    Unsigned16,
    Signed8,
    Unsigned8,
    Unsupported,
}

impl SampleFormat {
    /// Whether this is one of the eight playable encodings.
    pub open spec fn is_playable(self) -> bool {
        self != SampleFormat::Unsupported
    }

    /// Whether this is one of the eight playable encodings.
    pub fn playable(&self) -> (playable: bool)
        ensures
            playable == self.is_playable(),
    {
        match self {
            SampleFormat::Unsupported => false,
            _ => true,
        }
    }
}

/// A range of whole numbers with both ends included.
#[derive(PartialEq, Eq, Debug, Clone, Copy, Structural)]
pub struct Bounds {
    pub min: u32,
    pub max: u32,
}

impl Bounds {
    /// Whether `value` lies in the range.
    pub open spec fn contains(self, value: u32) -> bool {
        self.min <= value <= self.max
    }
}

/// How many frames a device takes per callback.
#[derive(PartialEq, Eq, Debug, Clone, Copy, Structural)]
pub enum BufferSize {
    /// Exactly this many.
    Fixed(u32),
    /// Any number within the bounds.
    Range(Bounds),
    /// The device does not say.
    Unknown,
}

/// The channels of a stream.
#[derive(PartialEq, Eq, Debug, Clone, Copy, Structural)]
pub enum ChannelSpec {
    /// This many channels, in the backend's default order.
    Count(u16),
}

impl ChannelSpec {
    /// The number of channels.
    pub open spec fn count(self) -> u16 {
        match self {
            ChannelSpec::Count(n) => n,
        }
    }
}

/// One concrete stream configuration.
///
/// A `FormatInfo` belongs to the backend named by `originating_provider`
/// and is meaningful to the devices of that backend alone.
#[derive(PartialEq, Eq, Debug, Clone, Copy)]
pub struct FormatInfo {
    pub originating_provider: &'static str,
    pub sample_type: SampleFormat,
    /// In Hz.
    pub sample_rate: u32,
    pub buffer_size: BufferSize,
    pub channels: ChannelSpec,
}

/// A family of configurations that a device can play in one encoding.
#[derive(PartialEq, Eq, Debug, Clone, Copy)]
pub struct SupportedFormat {
    pub originating_provider: &'static str,
    pub sample_type: SampleFormat,
    /// The sample rates in Hz.
    pub sample_rates: Bounds,
    pub buffer_size: BufferSize,
    pub channels: ChannelSpec,
}

impl SupportedFormat {
    /// Whether `format` is one of the configurations of this family: of
    /// the same backend, in the same encoding, with as many channels and
    /// at one of the sample rates.
    pub open spec fn admits(self, format: FormatInfo) -> bool {
        &&& format.originating_provider@ == self.originating_provider@
        &&& format.sample_type == self.sample_type
        &&& format.channels == self.channels
        &&& self.sample_rates.contains(format.sample_rate)
    }
}

} // verus!
