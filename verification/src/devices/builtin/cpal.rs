use crate::devices::builtin::native::{
    canonical_format, native_format, NativeBufferSize, NativeConfig, NativeConfigRange,
    NativeSampleFormat, StreamBufferSize, StreamConfig,
};
use crate::devices::builtin::ring::{
    consumer_of, producer_of, read, ring_fits, ring_with_capacity, write_blocking,
};
use crate::devices::errors::{
    CloseError, FindError, InfoError, InitializationError, ListError, OpenError, SubmissionError,
};
use crate::devices::format::{
    Bounds, BufferSize, ChannelSpec, FormatInfo, SampleFormat, SupportedFormat,
};
use crate::media::playback::{
    channels_of, converted_channels, inner, is_framed, GetInnerSamples, PlaybackFrame,
};
use rb::{Consumer, Producer};
use vstd::arithmetic::div_mod::lemma_fundamental_div_mod_converse;
use vstd::prelude::*;

verus! {

/// The identity that this backend stamps on every format it hands out.
pub const PROVIDER: &'static str = "cpal";

/// `str`'s `==`: two strings are equal when they hold the same characters
/// in the same order.
pub assume_specification[ <str as PartialEq>::eq ](a: &str, b: &str) -> (equal: bool)
    ensures
        equal == (a@ == b@),
;

/// Whether `format` was handed out by this backend.
pub open spec fn is_own_format(format: FormatInfo) -> bool {
    format.originating_provider@ == PROVIDER@
}

/// Maps a native encoding to the canonical one; what has none becomes
/// `Unsupported`.
pub fn format_from_cpal(format: &NativeSampleFormat) -> (canonical: SampleFormat)
    ensures
        canonical == canonical_format(*format),
{
    match format {
        NativeSampleFormat::I8 => SampleFormat::Signed8,
        NativeSampleFormat::I16 => SampleFormat::Signed16,
        NativeSampleFormat::I32 => SampleFormat::Signed32,
        NativeSampleFormat::U8 => SampleFormat::Unsigned8,
        NativeSampleFormat::U16 => SampleFormat::Unsigned16,
        NativeSampleFormat::U32 => SampleFormat::Unsigned32,
        NativeSampleFormat::F32 => SampleFormat::Float32,
        NativeSampleFormat::F64 => SampleFormat::Float64,
        _ => SampleFormat::Unsupported,
    }
}

/// Maps a canonical encoding to the native one.
pub fn cpal_from_format(format: &SampleFormat) -> (native: NativeSampleFormat)
    ensures
        native == native_format(*format),
{
    match format {
        SampleFormat::Signed8 => NativeSampleFormat::I8,
        SampleFormat::Signed16 => NativeSampleFormat::I16,
        SampleFormat::Signed32 => NativeSampleFormat::I32,
        SampleFormat::Unsigned8 => NativeSampleFormat::U8,
        SampleFormat::Unsigned16 => NativeSampleFormat::U16,
        SampleFormat::Unsigned32 => NativeSampleFormat::U32,
        SampleFormat::Float32 => NativeSampleFormat::F32,
        SampleFormat::Float64 => NativeSampleFormat::F64,
        _ => NativeSampleFormat::U16,
    }
}

/// Every playable encoding survives the trip to the native side and back.
pub proof fn lemma_format_round_trip(format: SampleFormat)
    requires
        format.is_playable(),
    ensures
        canonical_format(native_format(format)) == format,
{
}

/// The native configuration of a stream in `format`: two channels at the
/// format's sample rate, with the device's own buffer size. A format of
/// another backend has none.
pub fn cpal_config_from_info(format: &FormatInfo) -> (config: Result<StreamConfig, ()>)
    ensures
        config is Ok <==> is_own_format(*format),
        config matches Ok(c) ==> c == stream_config_of(*format),
{
    if *format.originating_provider != *PROVIDER {
        Err(())
    } else {
        Ok(StreamConfig {
            channels: 2,
            sample_rate: format.sample_rate,
            buffer_size: StreamBufferSize::Default,
        })
    }
}

/// The samples of `channels` in playing order: the first sample of every
/// channel, then the second of every channel, and so on for as many
/// samples as the first channel holds.
pub open spec fn interleaved<T>(channels: Seq<Seq<T>>) -> Seq<T> {
    if channels.len() == 0 {
        Seq::empty()
    } else {
        Seq::new(
            channels.len() * channels[0].len(),
            |i: int| channels[i % (channels.len() as int)][i / (channels.len() as int)],
        )
    }
}

/// Position `frame * count + channel` of an interleaved sequence belongs
/// to that channel and that frame.
pub proof fn lemma_interleaved_position(count: int, frame: int, channel: int)
    requires
        0 <= channel < count,
        0 <= frame,
    ensures
        (frame * count + channel) % count == channel,
        (frame * count + channel) / count == frame,
{
    lemma_fundamental_div_mod_converse(frame * count + channel, count, frame, channel);
}

/// Interleaves per-channel samples into one sequence.
///
/// With `N` channels of `L` samples each the result has `N * L` samples,
/// and the sample at position `i` is sample `i / N` of channel `i % N`.
/// No channels give no samples.
pub fn interleave<T: Copy>(samples: Vec<Vec<T>>) -> (result: Vec<T>)
    requires
        is_framed(channels_of(samples@)),
    ensures
        result@ == interleaved(channels_of(samples@)),
        samples.len() == 0 ==> result.len() == 0,
        samples.len() > 0 ==> result.len() == samples.len() * samples[0].len(),
        forall|i: int|
            0 <= i < result.len() ==> #[trigger] result[i] == samples[i % (samples.len() as int)][i
                / (samples.len() as int)],
{
    let count = samples.len();
    let mut result: Vec<T> = Vec::new();
    if count == 0 {
        return result;
    }
    let length = samples[0].len();
    let ghost channels = channels_of(samples@);
    let mut frame: usize = 0;
    while frame < length
        invariant
            count == samples.len(),
            count > 0,
            length == samples[0].len(),
            channels == channels_of(samples@),
            is_framed(channels),
            frame <= length,
            result.len() == frame * count,
            forall|i: int|
                0 <= i < result.len() ==> #[trigger] result[i] == channels[i % (count as int)][i / (
                count as int)],
        decreases length - frame,
    {
        let mut channel: usize = 0;
        while channel < count
            invariant
                count == samples.len(),
                count > 0,
                length == samples[0].len(),
                channels == channels_of(samples@),
                is_framed(channels),
                frame < length,
                channel <= count,
                result.len() == frame * count + channel,
                forall|i: int|
                    0 <= i < result.len() ==> #[trigger] result[i] == channels[i % (
                    count as int)][i / (count as int)],
            decreases count - channel,
        {
            proof {
                lemma_interleaved_position(count as int, frame as int, channel as int);
                assert(channels[0].len() <= channels[channel as int].len());
            }
            result.push(samples[channel][frame]);
            channel += 1;
        }
        assert((frame + 1) * count == frame * count + count) by (nonlinear_arith);
        frame += 1;
    }
    assert(frame * count == channels.len() * channels[0].len()) by (nonlinear_arith)
        requires
            frame == channels[0].len(),
            count == channels.len(),
    ;
    result
}

/// The buffer-size policy that a native one is reported as.
pub open spec fn buffer_size_of(size: NativeBufferSize) -> BufferSize {
    match size {
        NativeBufferSize::Range { min, max } => BufferSize::Range(Bounds { min, max }),
        NativeBufferSize::Unknown => BufferSize::Unknown,
    }
}

/// The format that a native default configuration is reported as.
pub open spec fn default_format_of(config: NativeConfig) -> FormatInfo {
    FormatInfo {
        originating_provider: PROVIDER,
        sample_type: canonical_format(config.sample_format),
        sample_rate: config.sample_rate,
        buffer_size: buffer_size_of(config.buffer_size),
        channels: ChannelSpec::Count(config.channels),
    }
}

/// The capability that a native range of configurations is reported as.
pub open spec fn supported_format_of(range: NativeConfigRange) -> SupportedFormat {
    SupportedFormat {
        originating_provider: PROVIDER,
        sample_type: canonical_format(range.sample_format),
        sample_rates: Bounds { min: range.min_sample_rate, max: range.max_sample_rate },
        buffer_size: buffer_size_of(range.buffer_size),
        channels: ChannelSpec::Count(range.channels),
    }
}

/// Whether a native range of configurations is in an encoding that can
/// be played.
pub open spec fn is_playable_range(range: NativeConfigRange) -> bool {
    canonical_format(range.sample_format).is_playable()
}

/// The capabilities that a device with these native ranges reports: the
/// ranges in a playable encoding, in their order.
pub open spec fn supported_formats_of(ranges: Seq<NativeConfigRange>) -> Seq<SupportedFormat> {
    ranges.filter(|range: NativeConfigRange| is_playable_range(range)).map_values(
        |range: NativeConfigRange| supported_format_of(range),
    )
}

/// The native configuration of a stream in `format`.
pub open spec fn stream_config_of(format: FormatInfo) -> StreamConfig {
    StreamConfig {
        channels: 2,
        sample_rate: format.sample_rate,
        buffer_size: StreamBufferSize::Default,
    }
}

/// How many samples the ring buffer of a stream holds: a fifth of a second
/// of audio on every channel.
pub open spec fn capacity_for(sample_rate: u32, channels: u16) -> int {
    (200 * sample_rate / 1000) * channels
}

/// How many samples the ring buffer of a stream holds: a fifth of a second
/// of audio on every channel.
pub fn ring_capacity(sample_rate: u32, channels: u16) -> (capacity: u64)
    ensures
        capacity == capacity_for(sample_rate, channels),
{
    let per_channel: u64 = (200 * (sample_rate as u64)) / 1000;
    assert(per_channel * (channels as u64) <= 0xffff_ffff * 0xffff) by (nonlinear_arith)
        requires
            per_channel <= 0xffff_ffff,
            channels <= 0xffff,
    ;
    per_channel * (channels as u64)
}

/// Whether a ring buffer for `capacity` samples of type `T` can be laid
/// out in memory.
pub fn fits_in_memory<T>(capacity: u64) -> (fits: bool)
    ensures
        fits == ring_fits::<T>(capacity as int),
{
    if capacity >= usize::MAX as u64 {
        return false;
    }
    let size = core::mem::size_of::<T>();
    let slots: u128 = capacity as u128 + 1;
    assert(slots * (size as u128) <= 0xffff_ffff_ffff_ffff * 0xffff_ffff_ffff_ffff)
        by (nonlinear_arith)
        requires
            slots <= 0xffff_ffff_ffff_ffff,
            size <= 0xffff_ffff_ffff_ffff,
    ;
    slots * (size as u128) <= isize::MAX as u128
}

/// Why a stream of `T` in `format` cannot be opened, if it cannot.
///
/// A format of another backend is refused before anything else is looked
/// at. Then the encoding must be playable and the one that `T` carries.
/// Last, the ring buffer must fit in memory.
pub open spec fn open_refusal<T: GetInnerSamples>(format: FormatInfo) -> Option<OpenError> {
    if !is_own_format(format) {
        Some(OpenError::InvalidConfigProvider)
    } else if !format.sample_type.is_playable() || format.sample_type != T::encoding() {
        Some(OpenError::InvalidSampleFormat)
    } else if !ring_fits::<T>(capacity_for(format.sample_rate, format.channels.count())) {
        Some(OpenError::Unknown)
    } else {
        None
    }
}

/// Opening a stream in a format of another backend fails as a mismatch of
/// providers, whatever the sample type and whatever else the format says.
pub proof fn lemma_foreign_format_is_refused<T: GetInnerSamples>(format: FormatInfo)
    requires
        !is_own_format(format),
    ensures
        open_refusal::<T>(format) == Some(OpenError::InvalidConfigProvider),
{
}

/// Opening a stream in the format that a device reports as its default
/// never fails as a mismatch of providers.
pub proof fn lemma_default_format_is_own<T: GetInnerSamples>(config: NativeConfig)
    ensures
        is_own_format(default_format_of(config)),
        open_refusal::<T>(default_format_of(config)) != Some(OpenError::InvalidConfigProvider),
{
}

/// Opening a stream in a format that one of a device's reported
/// capabilities admits never fails as a mismatch of providers, nor for an
/// encoding that cannot be played.
pub proof fn lemma_supported_format_is_own<T: GetInnerSamples>(
    ranges: Seq<NativeConfigRange>,
    index: int,
    format: FormatInfo,
)
    requires
        0 <= index < supported_formats_of(ranges).len(),
        supported_formats_of(ranges)[index].admits(format),
    ensures
        is_own_format(format),
        format.sample_type.is_playable(),
        open_refusal::<T>(format) != Some(OpenError::InvalidConfigProvider),
{
    let playable = |range: NativeConfigRange| is_playable_range(range);
    ranges.lemma_filter_pred(playable, index);
}

/// A stream before its native side is built: the configuration to build
/// the native stream with, and both ends of the ring buffer that will feed
/// it.
#[verifier::reject_recursive_types(T)]
pub struct StreamParts<T> {
    pub config: StreamConfig,
    pub format: FormatInfo,
    /// How many samples the ring buffer holds.
    pub capacity: usize,
    pub producer: Producer<T>,
    pub consumer: Consumer<T>,
}

/// An output device of the backend, as the host described it.
///
/// `D` is the native device; the library only carries it along.
pub struct CpalDevice<D> {
    device: D,
    name: Option<String>,
    default_config: Option<NativeConfig>,
    supported_configs: Option<Vec<NativeConfigRange>>,
}

impl<D> CpalDevice<D> {
    /// The native device.
    pub closed spec fn device(&self) -> D {
        self.device
    }

    /// The name that the host gave, if it gave one.
    pub closed spec fn name(&self) -> Option<Seq<char>> {
        match self.name {
            Some(name) => Some(name@),
            None => None,
        }
    }

    /// The default configuration that the host gave, if it gave one.
    pub closed spec fn default_config(&self) -> Option<NativeConfig> {
        self.default_config
    }

    /// The ranges of configurations that the host gave, if it gave any.
    pub closed spec fn supported_configs(&self) -> Option<Seq<NativeConfigRange>> {
        match self.supported_configs {
            Some(configs) => Some(configs@),
            None => None,
        }
    }

    /// Describes a device. Each of the three answers of the host is `None`
    /// where the host failed to give it.
    pub fn new(
        device: D,
        name: Option<String>,
        default_config: Option<NativeConfig>,
        supported_configs: Option<Vec<NativeConfigRange>>,
    ) -> (described: Self)
        ensures
            described.device() == device,
            described.name() == match name {
                Some(n) => Some(n@),
                None => None,
            },
            described.default_config() == default_config,
            described.supported_configs() == match supported_configs {
                Some(c) => Some(c@),
                None => None,
            },
    {
        CpalDevice { device, name, default_config, supported_configs }
    }

    /// The native device.
    pub fn native(&self) -> (device: &D)
        ensures
            *device == self.device(),
    {
        &self.device
    }

    /// Whether `id` is the name of the device. A device that the host gave
    /// no name has none, and `id` is not it.
    pub fn is_named(&self, id: &String) -> (named: bool)
        ensures
            named == (self.name() == Some(id@)),
    {
        match &self.name {
            Some(name) => *name == *id,
            None => false,
        }
    }

    /// The capabilities of the device: one entry for each range of
    /// configurations that the host reported in a playable encoding, in
    /// the host's order.
    pub fn get_supported_formats(&self) -> (formats: Result<Vec<SupportedFormat>, InfoError>)
        ensures
            formats is Ok <==> self.supported_configs() is Some,
            formats matches Err(e) ==> e == InfoError::Unknown,
            formats matches Ok(list) ==> {
                &&& list@ == supported_formats_of(self.supported_configs().unwrap())
                &&& forall|i: int|
                    0 <= i < list.len() ==> (#[trigger] list[i]).sample_type.is_playable()
                        && list[i].originating_provider@ == PROVIDER@
            },
    {
        let configs = match &self.supported_configs {
            Some(configs) => configs,
            None => {
                return Err(InfoError::Unknown);
            },
        };
        let ghost playable = |range: NativeConfigRange| is_playable_range(range);
        let ghost report = |range: NativeConfigRange| supported_format_of(range);
        let mut list: Vec<SupportedFormat> = Vec::new();
        let mut i: usize = 0;
        while i < configs.len()
            invariant
                i <= configs.len(),
                playable == |range: NativeConfigRange| is_playable_range(range),
                report == |range: NativeConfigRange| supported_format_of(range),
                list@ == configs@.take(i as int).filter(playable).map_values(report),
            decreases configs.len() - i,
        {
            let range = configs[i];
            proof {
                let before = configs@.take(i as int);
                let after = configs@.take(i + 1);
                assert(after.drop_last() =~= before);
                reveal(Seq::filter);
                if playable(range) {
                    assert(after.filter(playable).map_values(report) =~= before.filter(
                        playable,
                    ).map_values(report).push(report(range)));
                }
            }
            if format_from_cpal(&range.sample_format).playable() {
                list.push(
                    SupportedFormat {
                        originating_provider: PROVIDER,
                        sample_type: format_from_cpal(&range.sample_format),
                        sample_rates: Bounds {
                            min: range.min_sample_rate,
                            max: range.max_sample_rate,
                        },
                        buffer_size: match range.buffer_size {
                            NativeBufferSize::Range { min, max } => BufferSize::Range(
                                Bounds { min, max },
                            ),
                            NativeBufferSize::Unknown => BufferSize::Unknown,
                        },
                        channels: ChannelSpec::Count(range.channels),
                    },
                );
            }
            i += 1;
        }
        proof {
            assert(configs@.take(configs.len() as int) =~= configs@);
            let kept = configs@.filter(playable);
            assert forall|k: int| 0 <= k < list.len() implies (#[trigger] list[k]).sample_type.is_playable()
                && list[k].originating_provider@ == PROVIDER@ by {
                configs@.lemma_filter_pred(playable, k);
            }
        }
        Ok(list)
    }

    /// The format that the device plays by default.
    pub fn get_default_format(&self) -> (format: Result<FormatInfo, InfoError>)
        ensures
            format is Ok <==> self.default_config() is Some,
            format matches Err(e) ==> e == InfoError::Unknown,
            format matches Ok(f) ==> f == default_format_of(self.default_config().unwrap())
                && is_own_format(f),
    {
        match self.default_config {
            None => Err(InfoError::Unknown),
            Some(config) => Ok(
                FormatInfo {
                    originating_provider: PROVIDER,
                    sample_type: format_from_cpal(&config.sample_format),
                    sample_rate: config.sample_rate,
                    buffer_size: match config.buffer_size {
                        NativeBufferSize::Range { min, max } => BufferSize::Range(
                            Bounds { min, max },
                        ),
                        NativeBufferSize::Unknown => BufferSize::Unknown,
                    },
                    channels: ChannelSpec::Count(config.channels),
                },
            ),
        }
    }

    /// The name of the device.
    pub fn get_name(&self) -> (name: Result<String, InfoError>)
        ensures
            name is Ok <==> self.name() is Some,
            name matches Err(e) ==> e == InfoError::Unknown,
            name matches Ok(n) ==> Some(n@) == self.name(),
    {
        match &self.name {
            Some(name) => Ok(name.clone()),
            None => Err(InfoError::Unknown),
        }
    }

    /// The identity of the device, which stays the same for as long as the
    /// host runs: its name.
    pub fn get_uid(&self) -> (uid: Result<String, InfoError>)
        ensures
            uid is Ok <==> self.name() is Some,
            uid matches Err(e) ==> e == InfoError::Unknown,
            uid matches Ok(n) ==> Some(n@) == self.name(),
    {
        self.get_name()
    }

    /// Whether a stream must be opened in exactly a format that the device
    /// reports. The backend converts where it has to, so it need not.
    pub fn requires_matching_format(&self) -> (required: bool)
        ensures
            !required,
    {
        false
    }

    /// Prepares a stream of `T` in `format`: the native configuration and
    /// a new ring buffer for a fifth of a second of audio. `open_device`
    /// goes on from here; `CpalStream::attach` makes a stream of the parts
    /// by hand.
    ///
    /// The encoding of the format is the one that `T` carries. A format of
    /// another backend is refused with `InvalidConfigProvider`, a ring
    /// buffer that does not fit in memory with `Unknown`.
    pub fn create_stream<T: GetInnerSamples + Default>(&self, format: FormatInfo) -> (parts: Result<
        StreamParts<T>,
        OpenError,
    >)
        requires
            format.sample_type == T::encoding(),
        ensures
            parts is Ok <==> is_own_format(format) && ring_fits::<T>(
                capacity_for(format.sample_rate, format.channels.count()),
            ),
            parts matches Err(e) ==> e == (if is_own_format(format) {
                OpenError::Unknown
            } else {
                OpenError::InvalidConfigProvider
            }),
            parts matches Ok(p) ==> {
                &&& p.format == format
                &&& p.capacity == capacity_for(format.sample_rate, format.channels.count())
                &&& p.config == stream_config_of(format)
            },
    {
        let config = match cpal_config_from_info(&format) {
            Ok(config) => config,
            Err(_) => {
                return Err(OpenError::InvalidConfigProvider);
            },
        };
        let channels = match format.channels {
            ChannelSpec::Count(count) => count,
        };
        let buffer_size = ring_capacity(config.sample_rate, channels);
        if !fits_in_memory::<T>(buffer_size) {
            return Err(OpenError::Unknown);
        }
        let capacity = buffer_size as usize;
        let ring = ring_with_capacity::<T>(capacity);
        let consumer = consumer_of(&ring);
        let producer = producer_of(&ring);
        Ok(StreamParts { config, format, capacity, producer, consumer })
    }

}

/// The output side of an audio host at one moment: its devices and the
/// one that it plays on by default.
pub struct Host<D> {
    /// The devices of the host; `None` where the host could not list them.
    pub devices: Option<Vec<CpalDevice<D>>>,
    /// The default output device, if the host has one.
    pub default_output: Option<CpalDevice<D>>,
}

/// Finds the devices of the audio host that it is bound to.
pub struct CpalProvider<D> {
    host: Host<D>,
}

impl<D> CpalProvider<D> {
    /// The host that the provider is bound to.
    pub closed spec fn host(&self) -> Host<D> {
        self.host
    }

    /// The first position in `devices` of a device with the name `id`, or
    /// the length of `devices` where there is none.
    pub open spec fn position_of(devices: Seq<CpalDevice<D>>, id: Seq<char>) -> int
        decreases devices.len(),
    {
        if devices.len() == 0 {
            0
        } else if devices[0].name() == Some(id) {
            0
        } else {
            1 + Self::position_of(devices.skip(1), id)
        }
    }

    /// A provider bound to `host`.
    pub fn new(host: Host<D>) -> (provider: Self)
        ensures
            provider.host() == host,
    {
        CpalProvider { host }
    }

    /// Binds the provider to the host that the platform offers now. Where
    /// it offers none, the provider stays bound as it was.
    pub fn initialize(&mut self, host: Option<Host<D>>) -> (result: Result<
        (),
        InitializationError,
    >)
        ensures
            result is Ok <==> host is Some,
            result matches Err(e) ==> e == InitializationError::Unknown,
            final(self).host() == match host {
                Some(h) => h,
                None => old(self).host(),
            },
    {
        match host {
            Some(host) => {
                self.host = host;
                Ok(())
            },
            None => Err(InitializationError::Unknown),
        }
    }

    /// The devices of the host.
    pub fn get_devices(&self) -> (devices: Result<&Vec<CpalDevice<D>>, ListError>)
        ensures
            devices is Ok <==> self.host().devices is Some,
            devices matches Err(e) ==> e == ListError::Unknown,
            devices matches Ok(list) ==> Some(*list) == self.host().devices,
    {
        match &self.host.devices {
            Some(devices) => Ok(devices),
            None => Err(ListError::Unknown),
        }
    }

    /// The device that the host plays on by default.
    pub fn get_default_device(&self) -> (device: Result<&CpalDevice<D>, FindError>)
        ensures
            device is Ok <==> self.host().default_output is Some,
            device matches Err(e) ==> e == FindError::DeviceDoesNotExist,
            device matches Ok(d) ==> Some(*d) == self.host().default_output,
    {
        match &self.host.default_output {
            Some(device) => Ok(device),
            None => Err(FindError::DeviceDoesNotExist),
        }
    }

    /// The first device of the host whose name is `id`. A device without a
    /// name is never found.
    ///
    /// The search fails with `Unknown` where the host could not list its
    /// devices, and with `DeviceDoesNotExist` where none of them has the
    /// name.
    pub fn get_device_by_uid(&self, id: &String) -> (device: Result<&CpalDevice<D>, FindError>)
        ensures
            self.host().devices is None ==> (device matches Err(e) && e == FindError::Unknown),
            self.host().devices matches Some(devices) ==> {
                let position = Self::position_of(devices@, id@);
                &&& 0 <= position <= devices.len()
                &&& forall|k: int|
                    0 <= k < position ==> (#[trigger] devices[k]).name() != Some(id@)
                &&& position < devices.len() ==> devices[position].name() == Some(id@)
                &&& position < devices.len() ==> (device matches Ok(d) && *d
                    == devices[position])
                &&& position == devices.len() ==> (device matches Err(e) && e
                    == FindError::DeviceDoesNotExist)
            },
            device matches Ok(d) ==> d.name() == Some(id@),
    {
        let devices = match &self.host.devices {
            Some(devices) => devices,
            None => {
                return Err(FindError::Unknown);
            },
        };
        let mut i: usize = 0;
        assert(devices@.skip(0) =~= devices@);
        while i < devices.len()
            invariant
                self.host().devices == Some(*devices),
                i <= devices.len(),
                forall|k: int| 0 <= k < i ==> (#[trigger] devices[k]).name() != Some(id@),
                Self::position_of(devices@, id@) == i + Self::position_of(
                    devices@.skip(i as int),
                    id@,
                ),
            decreases devices.len() - i,
        {
            proof {
                let rest = devices@.skip(i as int);
                assert(rest.skip(1) =~= devices@.skip(i + 1));
            }
            if devices[i].is_named(id) {
                return Ok(&devices[i]);
            }
            i += 1;
        }
        Err(FindError::DeviceDoesNotExist)
    }

    /// Where the search for `id` ends among `devices`: at the first device
    /// of that name, and at the end exactly where no device has it.
    pub proof fn lemma_position_of(devices: Seq<CpalDevice<D>>, id: Seq<char>)
        ensures
            0 <= Self::position_of(devices, id) <= devices.len(),
            forall|k: int|
                0 <= k < Self::position_of(devices, id) ==> (#[trigger] devices[k]).name() != Some(
                    id,
                ),
            Self::position_of(devices, id) < devices.len() ==> devices[Self::position_of(
                devices,
                id,
            )].name() == Some(id),
        decreases devices.len(),
    {
        if devices.len() > 0 && devices[0].name() != Some(id) {
            let rest = devices.skip(1);
            Self::lemma_position_of(rest, id);
            let position = Self::position_of(rest, id);
            assert forall|k: int| 0 <= k < position + 1 implies (#[trigger] devices[k]).name()
                != Some(id) by {
                if k > 0 {
                    assert(devices[k] == rest[k - 1]);
                }
            }
        }
    }

    /// The identity read from a listed device finds a device with that
    /// identity: where the device at `index` has the name `id`, the search
    /// for `id` ends at or before `index`, at a device of that name.
    pub proof fn lemma_uid_finds_its_device(devices: Seq<CpalDevice<D>>, index: int, id: Seq<char>)
        requires
            0 <= index < devices.len(),
            devices[index].name() == Some(id),
        ensures
            0 <= Self::position_of(devices, id) <= index,
            devices[Self::position_of(devices, id)].name() == Some(id),
    {
        Self::lemma_position_of(devices, id);
    }
}

impl<D> Default for CpalProvider<D> {
    /// A provider bound to a host without devices.
    fn default() -> (provider: Self)
        ensures
            provider.host().devices matches Some(devices) && devices.len() == 0,
            provider.host().default_output is None,
    {
        CpalProvider { host: Host { devices: Some(Vec::new()), default_output: None } }
    }
}

/// How often in a row a stream lets the ring buffer answer that it stored
/// nothing before it leaves samples in its backlog.
pub const PATIENCE: u64 = u64::MAX;

/// How many samples the ring buffer stored in all, where `answers` are the
/// counts that it answered to one offer after another.
pub open spec fn stored_in_all(answers: Seq<nat>) -> nat
    decreases answers.len(),
{
    if answers.len() == 0 {
        0
    } else {
        stored_in_all(answers.drop_last()) + answers.last()
    }
}

/// Whether the ring buffer has used up the patience of a stream: each of
/// its last `PATIENCE` answers was that it stored nothing.
pub open spec fn ends_idle(answers: Seq<nat>) -> bool {
    &&& answers.len() >= PATIENCE
    &&& forall|i: int| answers.len() - PATIENCE <= i < answers.len() ==> answers[i] == 0
}

/// The samples that `frame` puts on a stream of `T`, in playing order.
pub open spec fn frame_samples<T: GetInnerSamples>(frame: PlaybackFrame) -> Seq<T> {
    interleaved(converted_channels::<T>(frame.channels()))
}

/// Samples on their way into a ring buffer: what a stream was given and
/// the ring buffer has not taken yet, oldest first.
pub struct Backlog<T> {
    samples: Vec<T>,
    taken: usize,
}

impl<T> Backlog<T> {
    #[verifier::type_invariant]
    spec fn taken_in_range(self) -> bool {
        self.taken <= self.samples.len()
    }

    /// The samples that wait, oldest first.
    pub closed spec fn waiting(self) -> Seq<T> {
        self.samples@.skip(self.taken as int)
    }

    /// A backlog in which nothing waits.
    pub fn new() -> (backlog: Self)
        ensures
            backlog.waiting() == Seq::<T>::empty(),
    {
        Backlog { samples: Vec::new(), taken: 0 }
    }

    /// Whether nothing waits.
    pub fn is_empty(&self) -> (empty: bool)
        ensures
            empty == (self.waiting().len() == 0),
    {
        proof {
            use_type_invariant(self);
        }
        self.taken == self.samples.len()
    }

    /// The samples that wait, as they are offered to the ring buffer.
    pub fn rest(&self) -> (rest: &[T])
        ensures
            rest@ == self.waiting(),
    {
        proof {
            use_type_invariant(self);
        }
        vstd::slice::slice_subrange(self.samples.as_slice(), self.taken, self.samples.len())
    }

    /// Takes note of what the ring buffer answered when it was offered the
    /// samples that wait: `Some(count)` when it stored the oldest `count`
    /// of them, `None` when it was offered nothing.
    ///
    /// The samples that were stored wait no longer. The result says whether
    /// any were stored.
    pub fn record(&mut self, written: Option<usize>) -> (progress: bool)
        requires
            written matches Some(count) ==> count <= old(self).waiting().len(),
        ensures
            final(self).waiting() == old(self).waiting().skip(
                match written {
                    Some(count) => count as int,
                    None => 0,
                },
            ),
            progress == (written matches Some(count) && count > 0),
    {
        proof {
            use_type_invariant(&*self);
        }
        let count = match written {
            Some(count) => count,
            None => 0,
        };
        self.taken = self.taken + count;
        count > 0
    }

    /// Forgets what waits.
    pub fn clear(&mut self)
        ensures
            final(self).waiting() == Seq::<T>::empty(),
    {
        self.taken = 0;
        self.samples = Vec::new();
    }
}

impl<T: Copy> Backlog<T> {
    /// Puts `samples` behind what waits already.
    pub fn extend(&mut self, samples: Vec<T>)
        ensures
            final(self).waiting() == old(self).waiting() + samples@,
    {
        if self.is_empty() {
            self.taken = 0;
            self.samples = samples;
        } else {
            let mut merged = vstd::slice::slice_to_vec(self.rest());
            let mut samples = samples;
            merged.append(&mut samples);
            self.taken = 0;
            self.samples = merged;
        }
    }
}

/// What keeps a stream alive: the writing end of its ring buffer and the
/// native stream whose callback reads the other end.
#[verifier::reject_recursive_types(T)]
struct StreamHandles<T, S> {
    ring_buf: Producer<T>,
    #[allow(dead_code)]
    stream: S,
}

/// What a stream knows of its samples: those that wait, and, for the
/// proofs alone, those that were delivered and what the ring buffer
/// answered.
struct Ledger<T> {
    waiting: Backlog<T>,
    stored: Ghost<Seq<T>>,
    counts: Ghost<Seq<nat>>,
}

/// Offers `waiting` to the ring buffer until all of it is stored, or until
/// the ring buffer has answered `PATIENCE` times in a row that it stored
/// nothing. Returns the answers of the ring buffer, oldest first.
fn offer<T: Copy>(ring_buf: &Producer<T>, waiting: &mut Backlog<T>) -> (answers: Ghost<Seq<nat>>)
    ensures
        stored_in_all(answers@) <= old(waiting).waiting().len(),
        final(waiting).waiting() == old(waiting).waiting().skip(stored_in_all(answers@) as int),
        final(waiting).waiting().len() > 0 ==> ends_idle(answers@),
{
    let ghost mut fresh = Seq::<nat>::empty();
    let mut idle: u64 = 0;
    while !waiting.is_empty() && idle < PATIENCE
        invariant
            stored_in_all(fresh) <= old(waiting).waiting().len(),
            waiting.waiting() == old(waiting).waiting().skip(stored_in_all(fresh) as int),
            idle <= fresh.len(),
            forall|i: int| fresh.len() - idle <= i < fresh.len() ==> fresh[i] == 0,
        decreases waiting.waiting().len(), PATIENCE - idle,
    {
        let written = write_blocking(ring_buf, waiting.rest());
        let progress = waiting.record(written);
        proof {
            let count = written.unwrap() as nat;
            assert(fresh.push(count).drop_last() =~= fresh);
            fresh = fresh.push(count);
        }
        if progress {
            idle = 0;
        } else {
            idle = idle + 1;
        }
    }
    Ghost(fresh)
}

/// An open output stream of samples of type `T`.
///
/// `S` is the native stream; the library only keeps it alive and drops it
/// when the stream is closed.
///
/// The stream accounts for every sample it is given: a sample is either
/// `delivered`, that is stored in the ring buffer, or in the `backlog`,
/// waiting for room. Samples wait only in a stream whose ring buffer has
/// used up its patience. The format of a stream is one of this backend.
#[verifier::reject_recursive_types(T)]
pub struct CpalStream<T, S> {
    handles: Option<StreamHandles<T, S>>,
    format: FormatInfo,
    ledger: Ledger<T>,
}

impl<T, S> CpalStream<T, S> {
    #[verifier::type_invariant]
    spec fn own_and_waiting_only_when_idle(self) -> bool {
        &&& is_own_format(self.format)
        &&& self.ledger.waiting.waiting().len() > 0 ==> ends_idle(self.ledger.counts@)
    }
}

impl<T: GetInnerSamples, S> CpalStream<T, S> {
    /// Whether the stream has not been closed.
    pub closed spec fn is_open(&self) -> bool {
        self.handles is Some
    }

    /// The format that the stream was opened with.
    pub closed spec fn format(&self) -> FormatInfo {
        self.format
    }

    /// The samples that were submitted and have not been stored in the
    /// ring buffer yet, oldest first.
    pub closed spec fn backlog(&self) -> Seq<T> {
        self.ledger.waiting.waiting()
    }

    /// Every sample stored in the ring buffer since the stream was opened,
    /// oldest first.
    pub closed spec fn delivered(&self) -> Seq<T> {
        self.ledger.stored@
    }

    /// What the ring buffer answered to each offer of the stream since it
    /// was opened, oldest first: how many samples it stored.
    pub closed spec fn answers(&self) -> Seq<nat> {
        self.ledger.counts@
    }

    /// What the ring buffer answered to the offers that the stream has
    /// made since it was as `before`.
    pub open spec fn answers_since(&self, before: &Self) -> Seq<nat> {
        self.answers().skip(before.answers().len() as int)
    }

    /// Makes a stream of the writing end of a ring buffer and the native
    /// stream that was built to read from it. Where the native layer built
    /// none, opening has failed.
    ///
    /// The format is one of this backend, in the encoding that `T`
    /// carries: a stream is never made in another.
    pub fn attach(ring_buf: Producer<T>, format: FormatInfo, native: Option<S>) -> (stream: Result<
        Self,
        OpenError,
    >)
        requires
            is_own_format(format),
            format.sample_type == T::encoding(),
        ensures
            stream is Ok <==> native is Some,
            stream matches Err(e) ==> e == OpenError::Unknown,
            stream matches Ok(s) ==> {
                &&& s.is_open()
                &&& s.format() == format
                &&& s.backlog() == Seq::<T>::empty()
                &&& s.delivered() == Seq::<T>::empty()
                &&& s.answers() == Seq::<nat>::empty()
            },
    {
        match native {
            None => Err(OpenError::Unknown),
            Some(stream) => Ok(
                CpalStream {
                    handles: Some(StreamHandles { ring_buf, stream }),
                    format,
                    ledger: Ledger {
                        waiting: Backlog::new(),
                        stored: Ghost(Seq::empty()),
                        counts: Ghost(Seq::empty()),
                    },
                },
            ),
        }
    }

    /// The backlog of the stream with `more` behind it.
    fn backlog_with(&self, more: Vec<T>) -> (waiting: Backlog<T>)
        ensures
            waiting.waiting() == self.backlog() + more@,
    {
        let mut waiting = Backlog::new();
        if !self.ledger.waiting.is_empty() {
            waiting.extend(vstd::slice::slice_to_vec(self.ledger.waiting.rest()));
        }
        waiting.extend(more);
        waiting
    }

    /// Offers the backlog with `more` behind it to the ring buffer, as
    /// `resume` does with the backlog alone.
    fn deliver(&mut self, more: Vec<T>) -> (result: Result<(), SubmissionError>)
        ensures
            result is Ok <==> old(self).is_open(),
            result matches Err(e) ==> e == SubmissionError::Closed && *final(self) == *old(self),
            final(self).is_open() == old(self).is_open(),
            final(self).format() == old(self).format(),
            result is Ok ==> final(self).delivered() + final(self).backlog() == old(
                self,
            ).delivered() + old(self).backlog() + more@,
            old(self).delivered().is_prefix_of(final(self).delivered()),
            old(self).answers().is_prefix_of(final(self).answers()),
            final(self).delivered().len() == old(self).delivered().len() + stored_in_all(
                final(self).answers_since(old(self)),
            ),
            result is Ok && final(self).backlog().len() > 0 ==> ends_idle(
                final(self).answers_since(old(self)),
            ),
    {
        match &self.handles {
            None => Err(SubmissionError::Closed),
            Some(handles) => {
                let mut waiting = self.backlog_with(more);
                let ghost offered = waiting.waiting();
                let answers = offer(&handles.ring_buf, &mut waiting);
                proof {
                    use_type_invariant(&*self);
                    let counts = self.ledger.counts@ + answers@;
                    assert(counts.skip(self.ledger.counts@.len() as int) =~= answers@);
                }
                self.ledger = Ledger {
                    waiting,
                    stored: Ghost(
                        self.ledger.stored@ + offered.take(stored_in_all(answers@) as int),
                    ),
                    counts: Ghost(self.ledger.counts@ + answers@),
                };
                Ok(())
            },
        }
    }

    /// Offers the backlog to the ring buffer until all of it is stored.
    ///
    /// The call waits while the buffer is full. A wait can end while the
    /// buffer is still full; the backlog is then offered again. Only after
    /// `PATIENCE` waits in a row that ended so does the call return with
    /// samples left in the backlog, which stay for the next call. No
    /// sample is lost, repeated or reordered, and as many samples are
    /// delivered as the ring buffer answered that it stored. A closed
    /// stream is left as it was.
    pub fn resume(&mut self) -> (result: Result<(), SubmissionError>)
        ensures
            result is Ok <==> old(self).is_open(),
            result matches Err(e) ==> e == SubmissionError::Closed && *final(self) == *old(self),
            final(self).is_open() == old(self).is_open(),
            final(self).format() == old(self).format(),
            final(self).delivered() + final(self).backlog() == old(self).delivered() + old(
                self,
            ).backlog(),
            old(self).delivered().is_prefix_of(final(self).delivered()),
            old(self).answers().is_prefix_of(final(self).answers()),
            final(self).delivered().len() == old(self).delivered().len() + stored_in_all(
                final(self).answers_since(old(self)),
            ),
            result is Ok && final(self).backlog().len() > 0 ==> ends_idle(
                final(self).answers_since(old(self)),
            ),
    {
        self.deliver(Vec::new())
    }

    /// Hands a frame to the stream.
    ///
    /// The samples of the frame are converted to `T`, interleaved and put
    /// behind the backlog; then the backlog is offered to the ring buffer
    /// until all of it is stored, as `resume` does. The call waits while
    /// the buffer is full. It fails on a closed stream, which it leaves as
    /// it was, and on no other.
    pub fn submit_frame(&mut self, frame: PlaybackFrame) -> (result: Result<(), SubmissionError>)
        requires
            frame.well_formed(),
        ensures
            result is Ok <==> old(self).is_open(),
            result matches Err(e) ==> e == SubmissionError::Closed && *final(self) == *old(self),
            final(self).is_open() == old(self).is_open(),
            final(self).format() == old(self).format(),
            result is Ok ==> final(self).delivered() + final(self).backlog() == old(
                self,
            ).delivered() + old(self).backlog() + frame_samples::<T>(frame),
            old(self).delivered().is_prefix_of(final(self).delivered()),
            old(self).answers().is_prefix_of(final(self).answers()),
            final(self).delivered().len() == old(self).delivered().len() + stored_in_all(
                final(self).answers_since(old(self)),
            ),
            result is Ok && final(self).backlog().len() > 0 ==> ends_idle(
                final(self).answers_since(old(self)),
            ),
            result is Ok && final(self).backlog().len() == 0 ==> final(self).delivered() == old(
                self,
            ).delivered() + old(self).backlog() + frame_samples::<T>(frame),
    {
        if self.handles.is_none() {
            return Err(SubmissionError::Closed);
        }
        let samples: Vec<Vec<T>> = inner(&frame.samples);
        self.deliver(interleave(samples))
    }

    /// Closes the stream: drops the native stream, which ends the
    /// callback, lets go of the ring buffer and forgets the backlog.
    /// Closing a closed stream changes nothing. Closing never fails.
    pub fn close_stream(&mut self) -> (result: Result<(), CloseError>)
        ensures
            result is Ok,
            !final(self).is_open(),
            final(self).format() == old(self).format(),
            final(self).backlog() == Seq::<T>::empty(),
            final(self).delivered() == old(self).delivered(),
            final(self).answers() == old(self).answers(),
    {
        proof {
            use_type_invariant(&*self);
        }
        self.ledger = Ledger {
            waiting: Backlog::new(),
            stored: Ghost(self.ledger.stored@),
            counts: Ghost(self.ledger.counts@),
        };
        self.handles = None;
        Ok(())
    }

    /// Whether the stream is ready for the next frame: `false` exactly
    /// while samples of an earlier frame wait for room in the ring buffer.
    /// That is so only in a stream whose ring buffer has used up its
    /// patience: each of its last `PATIENCE` answers was that it stored
    /// nothing.
    pub fn needs_input(&self) -> (ready: bool)
        ensures
            ready == (self.backlog().len() == 0),
            !ready ==> ends_idle(self.answers()),
    {
        proof {
            use_type_invariant(self);
        }
        self.ledger.waiting.is_empty()
    }

    /// The format that the stream was opened with. It is one of this
    /// backend.
    pub fn get_current_format(&self) -> (format: Result<&FormatInfo, InfoError>)
        ensures
            format matches Ok(f) && *f == self.format() && is_own_format(*f),
    {
        proof {
            use_type_invariant(self);
        }
        Ok(&self.format)
    }
}

impl<D> CpalDevice<D> {
    /// Opens a stream of `T` in `format` on this device.
    ///
    /// The format must be one of this backend, whatever else it says; its
    /// encoding must be playable and the one that `T` carries. Then the
    /// ring buffer is made, and `build` is called once to build the native
    /// stream: it is given the native configuration and the reading end of
    /// the ring buffer, for the callback to fill its buffers from. Where
    /// `build` returns no native stream, opening fails with `Unknown`.
    ///
    /// `build` has to be callable only for a format that is not refused,
    /// with the configuration of that format: for a format that is
    /// refused nothing is built.
    pub fn open_device<T: GetInnerSamples + Default, S, F: FnOnce(
        StreamConfig,
        Consumer<T>,
    ) -> Option<S>>(&self, format: FormatInfo, build: F) -> (stream: Result<
        CpalStream<T, S>,
        OpenError,
    >)
        requires
            open_refusal::<T>(format) is None ==> forall|consumer: Consumer<T>|
                build.requires((stream_config_of(format), consumer)),
        ensures
            open_refusal::<T>(format) is Some ==> stream is Err,
            open_refusal::<T>(format) is None ==> exists|
                consumer: Consumer<T>,
                native: Option<S>,
            |
                {
                    &&& build.ensures((stream_config_of(format), consumer), native)
                    &&& stream is Ok <==> native is Some
                },
            stream matches Err(e) ==> e == (match open_refusal::<T>(format) {
                Some(refusal) => refusal,
                None => OpenError::Unknown,
            }),
            !is_own_format(format) ==> (stream matches Err(e) && e
                == OpenError::InvalidConfigProvider),
            stream matches Ok(s) ==> {
                &&& s.is_open()
                &&& s.format() == format
                &&& s.backlog() == Seq::<T>::empty()
                &&& s.delivered() == Seq::<T>::empty()
                &&& s.answers() == Seq::<nat>::empty()
            },
    {
        if *format.originating_provider != *PROVIDER {
            return Err(OpenError::InvalidConfigProvider);
        }
        if !format.sample_type.playable() || format.sample_type != T::sample_format() {
            return Err(OpenError::InvalidSampleFormat);
        }
        let parts = match self.create_stream::<T>(format) {
            Ok(parts) => parts,
            Err(e) => {
                return Err(e);
            },
        };
        let native = build(parts.config, parts.consumer);
        CpalStream::attach(parts.producer, parts.format, native)
    }
}

/// A submission that starts and ends with an empty backlog has stored
/// exactly the samples of its frame, interleaved: as many as the frame has
/// channels times the length of its first channel, and that many are what
/// the answers of the ring buffer to its offers add up to.
pub proof fn lemma_completed_submission<T: GetInnerSamples, S>(
    before: CpalStream<T, S>,
    after: CpalStream<T, S>,
    frame: PlaybackFrame,
)
    requires
        before.backlog().len() == 0,
        after.backlog().len() == 0,
        after.delivered() + after.backlog() == before.delivered() + before.backlog()
            + frame_samples::<T>(frame),
        after.delivered().len() == before.delivered().len() + stored_in_all(
            after.answers_since(&before),
        ),
    ensures
        after.delivered() == before.delivered() + frame_samples::<T>(frame),
        frame.samples.len() == 0 ==> stored_in_all(after.answers_since(&before)) == 0,
        frame.samples.len() > 0 ==> stored_in_all(after.answers_since(&before))
            == frame.samples.len() * frame.samples[0].len(),
{
}

/// Overwrites `data` from position `from` on with silence and leaves what
/// stands before it. Where `from` is not within `data`, nothing changes.
pub fn silence_from<T: GetInnerSamples>(data: &mut [T], from: usize)
    ensures
        final(data)@.len() == old(data)@.len(),
        forall|i: int| 0 <= i < from && i < old(data)@.len() ==> final(data)@[i] == old(data)@[i],
        forall|i: int| from <= i < final(data)@.len() ==> final(data)@[i] == T::equilibrium(),
{
    let length = data.len();
    let mut i: usize = from;
    while i < length
        invariant
            length == data@.len(),
            length == old(data)@.len(),
            from <= i,
            forall|k: int| 0 <= k < from && k < length ==> data@[k] == old(data)@[k],
            forall|k: int| from <= k < i && k < length ==> data@[k] == T::equilibrium(),
        decreases length - i,
    {
        data[i] = T::silence();
        i += 1;
    }
}

/// Fills the buffer of one playback callback.
///
/// Takes what the ring buffer holds, up to the length of `data`, without
/// waiting, and returns how many samples that were. Where the ring buffer
/// held fewer, the rest of `data` is silence.
pub fn fill_output<T: GetInnerSamples>(consumer: &Consumer<T>, data: &mut [T]) -> (taken: usize)
    ensures
        final(data)@.len() == old(data)@.len(),
        taken <= old(data)@.len(),
        forall|i: int| taken <= i < final(data)@.len() ==> final(data)@[i] == T::equilibrium(),
{
    let taken = match read(consumer, data) {
        Ok(count) => count,
        Err(_) => 0,
    };
    silence_from(data, taken);
    taken
}

} // verus!
