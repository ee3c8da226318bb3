use crate::devices::format::SampleFormat;
use vstd::prelude::*;

verus! {

/// One batch of decoded audio: for each channel the samples of the batch,
/// as whole numbers, whatever the device will play them as.
#[derive(PartialEq, Eq, Debug, Clone)]
pub struct PlaybackFrame {
    pub samples: Vec<Vec<i32>>,
}

/// The samples of a frame, channel by channel.
pub open spec fn channels_of<T>(samples: Seq<Vec<T>>) -> Seq<Seq<T>> {
    Seq::new(samples.len(), |c: int| samples[c]@)
}

/// Whether no channel is shorter than the first one. The length of the
/// first channel is the length of the frame.
pub open spec fn is_framed<T>(channels: Seq<Seq<T>>) -> bool {
    forall|c: int| 0 <= c < channels.len() ==> channels[0].len() <= #[trigger] channels[c].len()
}

impl PlaybackFrame {
    /// The samples of the frame, channel by channel.
    pub open spec fn channels(self) -> Seq<Seq<i32>> {
        channels_of(self.samples@)
    }

    /// Whether no channel is shorter than the first one.
    pub open spec fn well_formed(self) -> bool {
        is_framed(self.channels())
    }

    /// Whether no channel is shorter than the first one.
    pub fn is_well_formed(&self) -> (ok: bool)
        ensures
            ok == self.well_formed(),
    {
        if self.samples.len() == 0 {
            return true;
        }
        let length = self.samples[0].len();
        let mut c: usize = 0;
        while c < self.samples.len()
            invariant
                c <= self.samples.len(),
                self.samples.len() > 0,
                length == self.samples[0].len(),
                forall|k: int| 0 <= k < c ==> length <= #[trigger] self.channels()[k].len(),
            decreases self.samples.len() - c,
        {
            if self.samples[c].len() < length {
                assert(self.channels()[c as int].len() < self.channels()[0].len());
                return false;
            }
            c += 1;
        }
        true
    }
}

/// A type of sample that a stream can carry.
///
/// Frames hold whole numbers; a stream holds samples in the type that its
/// encoding names. This trait says how the one becomes the other, and what
/// a silent sample is.
///
/// `encoding`, `converted` and `equilibrium` say what the three functions
/// return. A type that implements the trait defines them; of a type that
/// does not, nothing is known but that its functions return what they say.
pub trait GetInnerSamples: Copy {
    /// The encoding that this type carries.
    open spec fn encoding() -> SampleFormat {
        arbitrary()
    }

    /// The sample that the number `value` becomes. For the integer types
    /// it is `value` itself where the type can hold it, and else the number
    /// that the low bits of `value` make in the type.
    open spec fn converted(value: i32) -> Self {
        arbitrary()
    }

    /// The sample of a silent signal: the middle of the range of the type.
    open spec fn equilibrium() -> Self {
        arbitrary()
    }

    /// The encoding that this type carries.
    fn sample_format() -> (format: SampleFormat)
        ensures
            format == Self::encoding(),
    ;

    /// Converts one number of a frame.
    fn from_canonical(value: i32) -> (sample: Self)
        ensures
            sample == Self::converted(value),
    ;

    /// The sample of a silent signal.
    fn silence() -> (sample: Self)
        ensures
            sample == Self::equilibrium(),
    ;
}

impl GetInnerSamples for i8 {
    open spec fn encoding() -> SampleFormat {
        SampleFormat::Signed8
    }

    open spec fn converted(value: i32) -> i8 {
        value as i8
    }

    open spec fn equilibrium() -> i8 {
        0
    }

    fn sample_format() -> SampleFormat {
        SampleFormat::Signed8
    }

    fn from_canonical(value: i32) -> i8 {
        #[verifier::truncate]
        (value as i8)
    }

    fn silence() -> i8 {
        0
    }
}

impl GetInnerSamples for i16 {
    open spec fn encoding() -> SampleFormat {
        SampleFormat::Signed16
    }

    open spec fn converted(value: i32) -> i16 {
        value as i16
    }

    open spec fn equilibrium() -> i16 {
        0
    }

    fn sample_format() -> SampleFormat {
        SampleFormat::Signed16
    }

    fn from_canonical(value: i32) -> i16 {
        #[verifier::truncate]
        (value as i16)
    }

    fn silence() -> i16 {
        0
    }
}

impl GetInnerSamples for i32 {
    open spec fn encoding() -> SampleFormat {
        SampleFormat::Signed32
    }

    open spec fn converted(value: i32) -> i32 {
        value
    }

    open spec fn equilibrium() -> i32 {
        0
    }

    fn sample_format() -> SampleFormat {
        SampleFormat::Signed32
    }

    fn from_canonical(value: i32) -> i32 {
        value
    }

    fn silence() -> i32 {
        0
    }
}

impl GetInnerSamples for u8 {
    open spec fn encoding() -> SampleFormat {
        SampleFormat::Unsigned8
    }

    open spec fn converted(value: i32) -> u8 {
        value as u8
    }

    open spec fn equilibrium() -> u8 {
        128
    }

    fn sample_format() -> SampleFormat {
        SampleFormat::Unsigned8
    }

    fn from_canonical(value: i32) -> u8 {
        #[verifier::truncate]
        (value as u8)
    }

    fn silence() -> u8 {
        128
    }
}

impl GetInnerSamples for u16 {
    open spec fn encoding() -> SampleFormat {
        SampleFormat::Unsigned16
    }

    open spec fn converted(value: i32) -> u16 {
        value as u16
    }

    open spec fn equilibrium() -> u16 {
        32768
    }

    fn sample_format() -> SampleFormat {
        SampleFormat::Unsigned16
    }

    fn from_canonical(value: i32) -> u16 {
        #[verifier::truncate]
        (value as u16)
    }

    fn silence() -> u16 {
        32768
    }
}

impl GetInnerSamples for u32 {
    open spec fn encoding() -> SampleFormat {
        SampleFormat::Unsigned32
    }

    open spec fn converted(value: i32) -> u32 {
        value as u32
    }

    open spec fn equilibrium() -> u32 {
        2147483648
    }

    fn sample_format() -> SampleFormat {
        SampleFormat::Unsigned32
    }

    fn from_canonical(value: i32) -> u32 {
        #[verifier::truncate]
        (value as u32)
    }

    fn silence() -> u32 {
        2147483648
    }
}

/// A number that the type of an integer encoding can hold is converted to
/// itself.
pub proof fn lemma_conversion_keeps_what_fits(value: i32)
    ensures
        i8::MIN <= value <= i8::MAX ==> <i8 as GetInnerSamples>::converted(value) == value,
        i16::MIN <= value <= i16::MAX ==> <i16 as GetInnerSamples>::converted(value) == value,
        <i32 as GetInnerSamples>::converted(value) == value,
        0 <= value <= u8::MAX ==> <u8 as GetInnerSamples>::converted(value) == value,
        0 <= value <= u16::MAX ==> <u16 as GetInnerSamples>::converted(value) == value,
        0 <= value ==> <u32 as GetInnerSamples>::converted(value) == value,
{
}

/// The samples of a frame in the type `T`, channel by channel.
pub open spec fn converted_channels<T: GetInnerSamples>(channels: Seq<Seq<i32>>) -> Seq<Seq<T>> {
    Seq::new(
        channels.len(),
        |c: int| Seq::new(channels[c].len(), |j: int| T::converted(channels[c][j])),
    )
}

/// Converts every sample of a frame into the type `T`, keeping channels and
/// order.
pub fn inner<T: GetInnerSamples>(samples: &Vec<Vec<i32>>) -> (converted: Vec<Vec<T>>)
    ensures
        channels_of(converted@) == converted_channels::<T>(channels_of(samples@)),
{
    let mut converted: Vec<Vec<T>> = Vec::new();
    let mut c: usize = 0;
    while c < samples.len()
        invariant
            c <= samples.len(),
            converted.len() == c,
            forall|k: int|
                0 <= k < c ==> (#[trigger] converted[k])@ == Seq::new(
                    samples[k].len() as nat,
                    |j: int| T::converted(samples[k][j]),
                ),
        decreases samples.len() - c,
    {
        let channel = &samples[c];
        let mut row: Vec<T> = Vec::new();
        let mut j: usize = 0;
        while j < channel.len()
            invariant
                j <= channel.len(),
                row.len() == j,
                forall|i: int| 0 <= i < j ==> #[trigger] row[i] == T::converted(channel[i]),
            decreases channel.len() - j,
        {
            row.push(T::from_canonical(channel[j]));
            j += 1;
        }
        converted.push(row);
        c += 1;
    }
    converted
}

} // verus!
