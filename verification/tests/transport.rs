use muzak::devices::builtin::cpal::{
    fill_output, fits_in_memory, ring_capacity, CpalDevice, CpalStream,
};
use muzak::devices::builtin::native::{
    NativeBufferSize, NativeConfig, NativeConfigRange, NativeSampleFormat, StreamBufferSize,
    StreamConfig,
};
use muzak::devices::errors::{OpenError, SubmissionError};
use muzak::devices::format::{BufferSize, ChannelSpec, FormatInfo, SampleFormat};
use muzak::media::playback::{GetInnerSamples, PlaybackFrame};
use rb::Consumer;

fn format_of(
    provider: &'static str,
    sample_type: SampleFormat,
    sample_rate: u32,
    channels: u16,
) -> FormatInfo {
    FormatInfo {
        originating_provider: provider,
        sample_type,
        sample_rate,
        buffer_size: BufferSize::Unknown,
        channels: ChannelSpec::Count(channels),
    }
}

fn device() -> CpalDevice<()> {
    CpalDevice::new((), Some("speakers".to_string()), None, None)
}

/// Opens a stream whose native side is this test: it keeps the reading end
/// of the ring buffer and plays the callback by hand.
fn open<T: GetInnerSamples + Default>(
    format: FormatInfo,
) -> Result<(CpalStream<T, ()>, Consumer<T>), OpenError> {
    let mut reader = None;
    let stream = device().open_device(format, |_, consumer| {
        reader = Some(consumer);
        Some(())
    })?;
    Ok((stream, reader.unwrap()))
}

fn refusal<T: GetInnerSamples + Default>(format: FormatInfo) -> Option<OpenError> {
    open::<T>(format).err()
}

fn frame(samples: Vec<Vec<i32>>) -> PlaybackFrame {
    PlaybackFrame { samples }
}

#[derive(Clone, Copy, Debug, Default, PartialEq)]
struct Float32(f32);

impl GetInnerSamples for Float32 {
    fn sample_format() -> SampleFormat {
        SampleFormat::Float32
    }

    fn from_canonical(value: i32) -> Self {
        Float32(value as f32)
    }

    fn silence() -> Self {
        Float32(0.0)
    }
}

#[test]
fn stereo_frame_reaches_the_ring_buffer_interleaved() {
    let format = format_of("cpal", SampleFormat::Signed16, 44100, 2);
    let (mut stream, reader) = open::<i16>(format).unwrap();
    assert_eq!(stream.submit_frame(frame(vec![vec![1, 2, 3], vec![4, 5, 6]])), Ok(()));
    assert!(stream.needs_input());
    let mut out = [7i16; 6];
    assert_eq!(fill_output(&reader, &mut out), 6);
    assert_eq!(out, [1, 4, 2, 5, 3, 6]);
}

#[test]
fn format_of_another_provider_is_refused() {
    let format = format_of("pulse", SampleFormat::Signed16, 44100, 2);
    let mut built = false;
    let stream = device().open_device::<i16, (), _>(format, |_, _| {
        built = true;
        Some(())
    });
    assert_eq!(stream.err(), Some(OpenError::InvalidConfigProvider));
    assert!(!built);
    assert_eq!(device().create_stream::<i16>(format).err(), Some(OpenError::InvalidConfigProvider));
}

#[test]
fn foreign_format_is_refused_before_its_encoding_is_looked_at() {
    let format = format_of("pulse", SampleFormat::Unsupported, 44100, 2);
    assert_eq!(refusal::<i16>(format), Some(OpenError::InvalidConfigProvider));
    let format = format_of("pulse", SampleFormat::Float32, 44100, 2);
    assert_eq!(refusal::<i16>(format), Some(OpenError::InvalidConfigProvider));
}

#[test]
fn unsupported_encoding_is_refused() {
    let format = format_of("cpal", SampleFormat::Unsupported, 44100, 2);
    let mut built = false;
    let stream = device().open_device::<i16, (), _>(format, |_, _| {
        built = true;
        Some(())
    });
    assert_eq!(stream.err(), Some(OpenError::InvalidSampleFormat));
    assert!(!built);
    assert_eq!(refusal::<u8>(format), Some(OpenError::InvalidSampleFormat));
}

#[test]
fn encoding_of_another_sample_type_is_refused() {
    let format = format_of("cpal", SampleFormat::Signed16, 44100, 2);
    assert_eq!(refusal::<u16>(format), Some(OpenError::InvalidSampleFormat));
    assert_eq!(refusal::<i32>(format), Some(OpenError::InvalidSampleFormat));
    assert_eq!(refusal::<i16>(format), None);
}

#[test]
fn every_integer_encoding_opens_with_its_own_type() {
    assert_eq!(refusal::<i8>(format_of("cpal", SampleFormat::Signed8, 8000, 1)), None);
    assert_eq!(refusal::<i16>(format_of("cpal", SampleFormat::Signed16, 8000, 1)), None);
    assert_eq!(refusal::<i32>(format_of("cpal", SampleFormat::Signed32, 8000, 1)), None);
    assert_eq!(refusal::<u8>(format_of("cpal", SampleFormat::Unsigned8, 8000, 1)), None);
    assert_eq!(refusal::<u16>(format_of("cpal", SampleFormat::Unsigned16, 8000, 1)), None);
    assert_eq!(refusal::<u32>(format_of("cpal", SampleFormat::Unsigned32, 8000, 1)), None);
}

#[test]
fn native_stream_is_built_stereo_at_the_rate_of_the_format() {
    let format = format_of("cpal", SampleFormat::Unsigned8, 48000, 6);
    let mut seen = None;
    let stream = device().open_device::<u8, (), _>(format, |config, _| {
        seen = Some(config);
        Some(())
    });
    assert!(stream.is_ok());
    assert_eq!(
        seen,
        Some(StreamConfig {
            channels: 2,
            sample_rate: 48000,
            buffer_size: StreamBufferSize::Default,
        })
    );
}

#[test]
fn stream_that_the_native_layer_does_not_build_is_not_opened() {
    let format = format_of("cpal", SampleFormat::Signed16, 44100, 2);
    let stream = device().open_device::<i16, (), _>(format, |_, _| None);
    assert_eq!(stream.err(), Some(OpenError::Unknown));
}

#[test]
fn stream_keeps_its_native_stream_until_it_is_closed() {
    let format = format_of("cpal", SampleFormat::Signed16, 44100, 2);
    let native = std::rc::Rc::new(());
    let kept = native.clone();
    let mut stream = device().open_device::<i16, _, _>(format, |_, _| Some(kept)).unwrap();
    assert_eq!(std::rc::Rc::strong_count(&native), 2);
    assert_eq!(stream.submit_frame(frame(vec![vec![1], vec![2]])), Ok(()));
    assert_eq!(std::rc::Rc::strong_count(&native), 2);
    assert_eq!(stream.close_stream(), Ok(()));
    assert_eq!(std::rc::Rc::strong_count(&native), 1);
}

#[test]
fn prepared_parts_carry_format_configuration_and_capacity() {
    let format = format_of("cpal", SampleFormat::Unsigned8, 48000, 6);
    let parts = device().create_stream::<u8>(format).unwrap();
    assert_eq!(parts.format, format);
    assert_eq!(parts.capacity, 57600);
    assert_eq!(
        parts.config,
        StreamConfig { channels: 2, sample_rate: 48000, buffer_size: StreamBufferSize::Default }
    );
    let parts = device().create_stream::<i16>(format_of("cpal", SampleFormat::Signed16, 44100, 2));
    assert_eq!(parts.unwrap().capacity, 17640);
}

#[test]
fn parts_make_a_stream_by_hand() {
    let format = format_of("cpal", SampleFormat::Signed16, 44100, 2);
    let parts = device().create_stream::<i16>(format).unwrap();
    let mut stream = CpalStream::attach(parts.producer, parts.format, Some(())).unwrap();
    assert_eq!(stream.submit_frame(frame(vec![vec![1], vec![2]])), Ok(()));
    let mut out = [0i16; 2];
    assert_eq!(fill_output(&parts.consumer, &mut out), 2);
    assert_eq!(out, [1, 2]);
    let parts = device().create_stream::<i16>(format).unwrap();
    let failed = CpalStream::<i16, ()>::attach(parts.producer, parts.format, None);
    assert_eq!(failed.err(), Some(OpenError::Unknown));
}

#[test]
fn ring_buffer_holds_a_fifth_of_a_second() {
    assert_eq!(ring_capacity(44100, 2), 17640);
    assert_eq!(ring_capacity(48000, 2), 19200);
    assert_eq!(ring_capacity(8000, 1), 1600);
    assert_eq!(ring_capacity(22050, 0), 0);
    assert_eq!(ring_capacity(0, 2), 0);
    assert_eq!(ring_capacity(4, 2), 0);
    assert_eq!(ring_capacity(5, 2), 2);
    assert_eq!(ring_capacity(9, 3), 3);
    assert_eq!(ring_capacity(u32::MAX, u16::MAX), 858993459 * 65535);
}

#[test]
fn ring_buffers_fit_in_memory_up_to_the_largest_allocation() {
    assert!(fits_in_memory::<i16>(17640));
    assert!(fits_in_memory::<u32>(0));
    assert!(!fits_in_memory::<u8>(u64::MAX));
    assert!(!fits_in_memory::<u32>(isize::MAX as u64));
    assert!(fits_in_memory::<u8>(isize::MAX as u64 - 1));
    assert!(!fits_in_memory::<u8>(isize::MAX as u64));
}

#[test]
fn own_default_format_is_not_refused_as_foreign() {
    let config = NativeConfig {
        channels: 2,
        sample_rate: 44100,
        buffer_size: NativeBufferSize::Unknown,
        sample_format: NativeSampleFormat::I16,
    };
    let device = CpalDevice::new((), None, Some(config), None);
    let format = device.get_default_format().unwrap();
    assert!(device.open_device::<i16, (), _>(format, |_, _| Some(())).is_ok());
    let other = device.open_device::<u8, (), _>(format, |_, _| Some(()));
    assert_eq!(other.err(), Some(OpenError::InvalidSampleFormat));
}

#[test]
fn format_within_own_capability_is_not_refused_as_foreign() {
    let range = NativeConfigRange {
        channels: 2,
        min_sample_rate: 8000,
        max_sample_rate: 48000,
        buffer_size: NativeBufferSize::Unknown,
        sample_format: NativeSampleFormat::U16,
    };
    let device = CpalDevice::new((), None, None, Some(vec![range]));
    let supported = device.get_supported_formats().unwrap()[0];
    let format = FormatInfo {
        originating_provider: supported.originating_provider,
        sample_type: supported.sample_type,
        sample_rate: supported.sample_rates.max,
        buffer_size: supported.buffer_size,
        channels: supported.channels,
    };
    assert!(device.open_device::<u16, (), _>(format, |_, _| Some(())).is_ok());
}

#[test]
fn stream_remembers_its_format() {
    let format = format_of("cpal", SampleFormat::Signed32, 96000, 2);
    let (mut stream, _reader) = open::<i32>(format).unwrap();
    assert_eq!(stream.get_current_format(), Ok(&format));
    assert_eq!(stream.submit_frame(frame(vec![vec![1], vec![2]])), Ok(()));
    assert_eq!(stream.get_current_format(), Ok(&format));
    assert_eq!(stream.close_stream(), Ok(()));
    assert_eq!(stream.get_current_format(), Ok(&format));
}

#[test]
fn new_stream_needs_input() {
    let format = format_of("cpal", SampleFormat::Signed16, 44100, 2);
    let (stream, _reader) = open::<i16>(format).unwrap();
    assert!(stream.needs_input());
}

#[test]
fn frames_come_out_in_the_order_they_went_in() {
    let format = format_of("cpal", SampleFormat::Signed16, 44100, 2);
    let (mut stream, reader) = open::<i16>(format).unwrap();
    assert_eq!(stream.submit_frame(frame(vec![vec![1, 2], vec![3, 4]])), Ok(()));
    assert_eq!(stream.submit_frame(frame(vec![vec![5], vec![6]])), Ok(()));
    assert_eq!(stream.submit_frame(frame(vec![vec![7, 8, 9], vec![10, 11, 12]])), Ok(()));
    assert!(stream.needs_input());
    let mut first = [0i16; 5];
    assert_eq!(fill_output(&reader, &mut first), 5);
    assert_eq!(first, [1, 3, 2, 4, 5]);
    let mut second = [0i16; 7];
    assert_eq!(fill_output(&reader, &mut second), 7);
    assert_eq!(second, [6, 7, 10, 8, 11, 9, 12]);
}

#[test]
fn samples_are_converted_on_their_way() {
    let format = format_of("cpal", SampleFormat::Unsigned8, 44100, 2);
    let (mut stream, reader) = open::<u8>(format).unwrap();
    assert_eq!(stream.submit_frame(frame(vec![vec![-1, 256], vec![300, 7]])), Ok(()));
    let mut out = [0u8; 4];
    assert_eq!(fill_output(&reader, &mut out), 4);
    assert_eq!(out, [255, 44, 0, 7]);
}

#[test]
fn ring_buffer_is_used_round_and_round() {
    let format = format_of("cpal", SampleFormat::Signed8, 20, 1);
    let (mut stream, reader) = open::<i8>(format).unwrap();
    let mut total = 0;
    for round in 0..10 {
        let base = 3 * round;
        assert_eq!(stream.submit_frame(frame(vec![vec![base, base + 1, base + 2]])), Ok(()));
        assert!(stream.needs_input());
        let mut out = [-1i8; 3];
        total += fill_output(&reader, &mut out);
        assert_eq!(out, [base as i8, base as i8 + 1, base as i8 + 2]);
    }
    assert_eq!(total, 30);
}

#[test]
fn frame_that_fills_the_ring_buffer_is_taken_whole() {
    let format = format_of("cpal", SampleFormat::Signed16, 10, 2);
    assert_eq!(ring_capacity(10, 2), 4);
    let (mut stream, reader) = open::<i16>(format).unwrap();
    assert_eq!(stream.submit_frame(frame(vec![vec![1, 2], vec![3, 4]])), Ok(()));
    assert!(stream.needs_input());
    let mut out = [0i16; 4];
    assert_eq!(fill_output(&reader, &mut out), 4);
    assert_eq!(out, [1, 3, 2, 4]);
}

#[test]
fn empty_frames_change_nothing() {
    let format = format_of("cpal", SampleFormat::Signed16, 44100, 2);
    let (mut stream, reader) = open::<i16>(format).unwrap();
    assert_eq!(stream.submit_frame(frame(vec![])), Ok(()));
    assert_eq!(stream.submit_frame(frame(vec![vec![], vec![]])), Ok(()));
    assert!(stream.needs_input());
    assert_eq!(stream.resume(), Ok(()));
    let mut out = [9i16; 2];
    assert_eq!(fill_output(&reader, &mut out), 0);
    assert_eq!(out, [0, 0]);
}

#[test]
fn underrun_is_filled_with_silence() {
    let format = format_of("cpal", SampleFormat::Unsigned16, 44100, 2);
    let (mut stream, reader) = open::<u16>(format).unwrap();
    assert_eq!(stream.submit_frame(frame(vec![vec![1], vec![2]])), Ok(()));
    let mut out = [9u16; 5];
    assert_eq!(fill_output(&reader, &mut out), 2);
    assert_eq!(out, [1, 2, 32768, 32768, 32768]);
    assert_eq!(fill_output(&reader, &mut out), 0);
    assert_eq!(out, [32768; 5]);
}

#[test]
fn callback_without_room_takes_nothing() {
    let format = format_of("cpal", SampleFormat::Signed16, 44100, 2);
    let (mut stream, reader) = open::<i16>(format).unwrap();
    assert_eq!(stream.submit_frame(frame(vec![vec![1], vec![2]])), Ok(()));
    let mut none: [i16; 0] = [];
    assert_eq!(fill_output(&reader, &mut none), 0);
    let mut out = [0i16; 2];
    assert_eq!(fill_output(&reader, &mut out), 2);
    assert_eq!(out, [1, 2]);
}

#[test]
fn float_stream_carries_converted_samples() {
    let format = format_of("cpal", SampleFormat::Float32, 44100, 2);
    let (mut stream, reader) = open::<Float32>(format).unwrap();
    assert_eq!(stream.submit_frame(frame(vec![vec![1, -2], vec![3, 4]])), Ok(()));
    let mut out = [Float32(9.0); 5];
    assert_eq!(fill_output(&reader, &mut out), 4);
    assert_eq!(out, [Float32(1.0), Float32(3.0), Float32(-2.0), Float32(4.0), Float32(0.0)]);
}

#[test]
fn float_stream_needs_a_float_format() {
    let format = format_of("cpal", SampleFormat::Float64, 44100, 2);
    assert_eq!(refusal::<Float32>(format), Some(OpenError::InvalidSampleFormat));
}

#[test]
fn closing_is_idempotent() {
    let format = format_of("cpal", SampleFormat::Signed16, 44100, 2);
    let (mut stream, _reader) = open::<i16>(format).unwrap();
    assert_eq!(stream.close_stream(), Ok(()));
    assert_eq!(stream.close_stream(), Ok(()));
    assert!(stream.needs_input());
}

#[test]
fn closed_stream_refuses_frames() {
    let format = format_of("cpal", SampleFormat::Signed16, 44100, 2);
    let (mut stream, reader) = open::<i16>(format).unwrap();
    assert_eq!(stream.submit_frame(frame(vec![vec![1], vec![2]])), Ok(()));
    assert_eq!(stream.close_stream(), Ok(()));
    assert_eq!(stream.submit_frame(frame(vec![vec![3], vec![4]])), Err(SubmissionError::Closed));
    assert_eq!(stream.resume(), Err(SubmissionError::Closed));
    let mut out = [0i16; 4];
    assert_eq!(fill_output(&reader, &mut out), 2);
    assert_eq!(out, [1, 2, 0, 0]);
}

#[derive(Clone, Copy)]
struct Wide([u8; 1 << 20]);

impl Default for Wide {
    fn default() -> Self {
        Wide([0; 1 << 20])
    }
}

impl GetInnerSamples for Wide {
    fn sample_format() -> SampleFormat {
        SampleFormat::Unsigned8
    }

    fn from_canonical(_: i32) -> Self {
        Wide::default()
    }

    fn silence() -> Self {
        Wide::default()
    }
}

#[test]
fn ring_buffer_too_large_for_memory_is_refused() {
    let format = format_of("cpal", SampleFormat::Unsigned8, u32::MAX, u16::MAX);
    assert!(!fits_in_memory::<Wide>(ring_capacity(u32::MAX, u16::MAX)));
    let mut built = false;
    let stream = device().open_device::<Wide, (), _>(format, |_, _| {
        built = true;
        Some(())
    });
    assert_eq!(stream.err(), Some(OpenError::Unknown));
    assert!(!built);
    assert_eq!(device().create_stream::<Wide>(format).err(), Some(OpenError::Unknown));
    let foreign = format_of("pulse", SampleFormat::Unsigned8, u32::MAX, u16::MAX);
    assert_eq!(refusal::<Wide>(foreign), Some(OpenError::InvalidConfigProvider));
}
