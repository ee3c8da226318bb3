use muzak::devices::builtin::cpal::{cpal_config_from_info, cpal_from_format, format_from_cpal};
use muzak::devices::builtin::native::{NativeSampleFormat, StreamBufferSize, StreamConfig};
use muzak::devices::format::{BufferSize, ChannelSpec, FormatInfo, SampleFormat};

const PLAYABLE: [SampleFormat; 8] = [
    SampleFormat::Float64,
    SampleFormat::Float32,
    SampleFormat::Signed32,
    SampleFormat::Unsigned32,
    SampleFormat::Signed16,
    SampleFormat::Unsigned16,
    SampleFormat::Signed8,
    SampleFormat::Unsigned8,
];

fn format_of(provider: &'static str, sample_rate: u32) -> FormatInfo {
    FormatInfo {
        originating_provider: provider,
        sample_type: SampleFormat::Float32,
        sample_rate,
        buffer_size: BufferSize::Fixed(512),
        channels: ChannelSpec::Count(6),
    }
}

#[test]
fn every_playable_encoding_survives_the_round_trip() {
    for format in PLAYABLE {
        assert_eq!(format_from_cpal(&cpal_from_format(&format)), format);
    }
}

#[test]
fn playable_encodings_map_to_distinct_native_ones() {
    for (i, a) in PLAYABLE.iter().enumerate() {
        for b in PLAYABLE.iter().skip(i + 1) {
            assert_ne!(cpal_from_format(a), cpal_from_format(b));
        }
    }
}

#[test]
fn native_encodings_map_to_their_canonical_names() {
    assert_eq!(format_from_cpal(&NativeSampleFormat::I8), SampleFormat::Signed8);
    assert_eq!(format_from_cpal(&NativeSampleFormat::I16), SampleFormat::Signed16);
    assert_eq!(format_from_cpal(&NativeSampleFormat::I32), SampleFormat::Signed32);
    assert_eq!(format_from_cpal(&NativeSampleFormat::U8), SampleFormat::Unsigned8);
    assert_eq!(format_from_cpal(&NativeSampleFormat::U16), SampleFormat::Unsigned16);
    assert_eq!(format_from_cpal(&NativeSampleFormat::U32), SampleFormat::Unsigned32);
    assert_eq!(format_from_cpal(&NativeSampleFormat::F32), SampleFormat::Float32);
    assert_eq!(format_from_cpal(&NativeSampleFormat::F64), SampleFormat::Float64);
}

#[test]
fn wide_native_encodings_are_unsupported() {
    assert_eq!(format_from_cpal(&NativeSampleFormat::I64), SampleFormat::Unsupported);
    assert_eq!(format_from_cpal(&NativeSampleFormat::U64), SampleFormat::Unsupported);
    assert_eq!(format_from_cpal(&NativeSampleFormat::Other), SampleFormat::Unsupported);
}

#[test]
fn unsupported_has_a_native_stand_in() {
    assert_eq!(cpal_from_format(&SampleFormat::Unsupported), NativeSampleFormat::U16);
}

#[test]
fn only_unsupported_is_not_playable() {
    for format in PLAYABLE {
        assert!(format.playable());
    }
    assert!(!SampleFormat::Unsupported.playable());
}

#[test]
fn native_config_is_stereo_at_the_rate_of_the_format() {
    assert_eq!(
        cpal_config_from_info(&format_of("cpal", 48000)),
        Ok(StreamConfig {
            channels: 2,
            sample_rate: 48000,
            buffer_size: StreamBufferSize::Default,
        })
    );
}

#[test]
fn native_config_of_a_foreign_format_is_refused() {
    assert_eq!(cpal_config_from_info(&format_of("pipewire", 48000)), Err(()));
    assert_eq!(cpal_config_from_info(&format_of("", 48000)), Err(()));
    assert_eq!(cpal_config_from_info(&format_of("CPAL", 48000)), Err(()));
    assert_eq!(cpal_config_from_info(&format_of("cpal ", 48000)), Err(()));
}
