use narrative_director::config::{
    i16_sample_to_u16, resolve, sample_format, u16_sample_to_i16, wav_spec_from_config,
    ConfigError, SampleRepresentation, StreamConfig, SupportedConfigRange,
};
use narrative_director::devices::{AudioInput, AudioOutput};
use narrative_director::wav::SampleKind;

fn range(
    channels: u16,
    min: u32,
    max: u32,
    representation: SampleRepresentation,
) -> SupportedConfigRange {
    SupportedConfigRange { channels, min_sample_rate: min, max_sample_rate: max, representation }
}

#[test]
fn resolve_matches_channel_count() {
    // For every advertised channel count, resolution returns a
    // configuration with exactly that channel count.
    let ranges = vec![
        range(1, 8000, 48000, SampleRepresentation::Int16),
        range(2, 8000, 96000, SampleRepresentation::Float32),
    ];
    for channels in [1u16, 2] {
        let config = resolve(&ranges, 44100, channels).expect("advertised channels resolve");
        assert_eq!(config.channel_count, channels);
        assert_eq!(config.sample_rate, 44100);
    }
}

#[test]
fn resolve_takes_first_matching_range() {
    let ranges = vec![
        range(2, 8000, 22050, SampleRepresentation::Int16),
        range(2, 8000, 96000, SampleRepresentation::UInt16),
        range(2, 8000, 96000, SampleRepresentation::Float32),
    ];
    let config = resolve(&ranges, 44100, 2).unwrap();
    // The first range does not cover 44100, the second does and wins.
    assert_eq!(config.representation, SampleRepresentation::UInt16);
}

#[test]
fn resolve_rejects_unsupported_combinations() {
    let ranges = vec![range(1, 8000, 48000, SampleRepresentation::Int16)];
    assert_eq!(resolve(&ranges, 44100, 2), Err(ConfigError::Unsupported));
    assert_eq!(resolve(&ranges, 96000, 1), Err(ConfigError::Unsupported));
    assert_eq!(resolve(&Vec::new(), 44100, 1), Err(ConfigError::Unsupported));
}

#[test]
fn sample_format_maps_to_wav_kinds() {
    assert_eq!(sample_format(SampleRepresentation::Int16), SampleKind::Int);
    assert_eq!(sample_format(SampleRepresentation::UInt16), SampleKind::Int);
    assert_eq!(sample_format(SampleRepresentation::Float32), SampleKind::Float);
}

#[test]
fn wav_spec_follows_the_adapter() {
    let config = StreamConfig {
        sample_rate: 44100,
        channel_count: 2,
        representation: SampleRepresentation::Float32,
    };
    let spec = wav_spec_from_config(&config);
    assert_eq!(spec.channels, 2);
    assert_eq!(spec.sample_rate, 44100);
    assert_eq!(spec.bits_per_sample, 32);
    assert_eq!(spec.sample_format, SampleKind::Float);

    let config = StreamConfig {
        sample_rate: 16000,
        channel_count: 1,
        representation: SampleRepresentation::UInt16,
    };
    let spec = wav_spec_from_config(&config);
    assert_eq!(spec.bits_per_sample, 16);
    assert_eq!(spec.sample_format, SampleKind::Int);
}

#[test]
fn sample_conversions_are_symmetric() {
    assert_eq!(u16_sample_to_i16(0), -32768);
    assert_eq!(u16_sample_to_i16(32768), 0);
    assert_eq!(u16_sample_to_i16(65535), 32767);
    assert_eq!(i16_sample_to_u16(-32768), 0);
    assert_eq!(i16_sample_to_u16(0), 32768);
    assert_eq!(i16_sample_to_u16(32767), 65535);
    for s in [0u16, 1, 32767, 32768, 65535] {
        assert_eq!(i16_sample_to_u16(u16_sample_to_i16(s)), s);
    }
}

#[test]
fn input_selection_defaults_and_setters() {
    let mut input = AudioInput::new();
    assert_eq!(input.device_name(), "default");
    assert_eq!(input.sample_rate(), 44100);
    assert_eq!(input.channel(), 1);

    input.set_device_name(String::from("USB Microphone"));
    input.set_sample_rate(48000);
    input.set_channels(2);
    assert_eq!(input.device_name(), "USB Microphone");
    assert_eq!(input.sample_rate(), 48000);
    assert_eq!(input.channel(), 2);
}

#[test]
fn output_selection_defaults_and_setters() {
    let mut output = AudioOutput::new();
    assert_eq!(output.device_name(), "default");
    output.set_device_name(String::from("Speakers"));
    assert_eq!(output.device_name(), "Speakers");
}

#[test]
fn has_valid_sample_rates() {
    // Against a device advertising an 8 kHz to 48 kHz range, the
    // supported well-known rates are exactly the four inside it,
    // ascending and deduplicated across overlapping ranges.
    let input = AudioInput::new();
    let configs = vec![
        range(1, 8000, 48000, SampleRepresentation::Int16),
        range(2, 16000, 48000, SampleRepresentation::Int16),
    ];
    let rates = input.sample_rates(&configs);
    assert_eq!(rates, vec![16000, 32000, 44100, 48000]);

    const SAMPLE_RATES: [u32; 6] = [16000, 32000, 44100, 48000, 88200, 96000];
    assert!(!rates.is_empty());
    assert!(rates.iter().all(|rate| SAMPLE_RATES.contains(rate)));
}

#[test]
fn sample_rates_empty_when_nothing_is_covered() {
    let input = AudioInput::new();
    let configs = vec![range(1, 1, 2, SampleRepresentation::Int16)];
    assert!(input.sample_rates(&configs).is_empty());
    assert!(input.sample_rates(&Vec::new()).is_empty());
}

#[test]
fn some_input_has_channels() {
    // Channel counts are gathered from every advertised range, sorted
    // and deduplicated.
    let input = AudioInput::new();
    let configs = vec![
        range(2, 8000, 48000, SampleRepresentation::Int16),
        range(1, 8000, 48000, SampleRepresentation::Int16),
        range(2, 8000, 96000, SampleRepresentation::Float32),
        range(6, 8000, 48000, SampleRepresentation::Int16),
    ];
    let channels = input.channels(&configs);
    assert!(!channels.is_empty());
    assert_eq!(channels, vec![1, 2, 6]);
}
