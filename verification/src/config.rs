//! Stream-configuration resolution and the sample-format adapter.
//!
//! A device advertises a list of supported configuration ranges, each a
//! channel count together with a sample-rate range and a native sample
//! representation.  Resolution picks the first advertised range that
//! matches a desired channel count and covers a desired sample rate, in
//! the order the device reported them.

use vstd::prelude::*;

use crate::wav::{SampleKind, WavSpec};

verus! {

/// The sample representation a device produces or consumes.
#[derive(Clone, Copy, Debug, PartialEq, Eq, Structural)]
pub enum SampleRepresentation {
    Int16,
    UInt16,
    Float32,
}

/// One supported configuration range advertised by a device.
#[derive(Clone, Copy, Debug, PartialEq, Eq, Structural)]
pub struct SupportedConfigRange {
    pub channels: u16,
    pub min_sample_rate: u32,
    pub max_sample_rate: u32,
    pub representation: SampleRepresentation,
}

/// A concrete negotiated stream configuration.
#[derive(Clone, Copy, Debug, PartialEq, Eq, Structural)]
pub struct StreamConfig {
    pub sample_rate: u32,
    pub channel_count: u16,
    pub representation: SampleRepresentation,
}

/// Why no stream configuration could be negotiated.
#[derive(Clone, Copy, Debug, PartialEq, Eq, Structural)]
pub enum ConfigError {
    /// No advertised range has the desired channel count and covers the
    /// desired sample rate.
    Unsupported,
}

/// Whether one advertised range satisfies the desired rate and channels.
pub open spec fn range_matches(c: SupportedConfigRange, sample_rate: u32, channels: u16) -> bool {
    c.channels == channels && c.min_sample_rate <= sample_rate <= c.max_sample_rate
}

/// The first advertised range that matches, in device-reported order.
pub open spec fn first_matching_range(
    ranges: Seq<SupportedConfigRange>,
    sample_rate: u32,
    channels: u16,
) -> Option<SupportedConfigRange>
    decreases ranges.len(),
{
    if ranges.len() == 0 {
        None
    } else if range_matches(ranges[0], sample_rate, channels) {
        Some(ranges[0])
    } else {
        first_matching_range(ranges.drop_first(), sample_rate, channels)
    }
}

/// The outcome `resolve` owes: the first matching range determines the
/// configuration, and no match at all is the only failure.
pub open spec fn resolve_outcome(
    ranges: Seq<SupportedConfigRange>,
    sample_rate: u32,
    channels: u16,
) -> Result<StreamConfig, ConfigError> {
    match first_matching_range(ranges, sample_rate, channels) {
        Some(c) => Ok(
            StreamConfig {
                sample_rate: sample_rate,
                channel_count: channels,
                representation: c.representation,
            },
        ),
        None => Err(ConfigError::Unsupported),
    }
}

proof fn lemma_first_matching_range_step(
    ranges: Seq<SupportedConfigRange>,
    sample_rate: u32,
    channels: u16,
    i: int,
)
    requires
        0 <= i < ranges.len(),
        !range_matches(ranges[i], sample_rate, channels),
    ensures
        first_matching_range(ranges.skip(i), sample_rate, channels) == first_matching_range(
            ranges.skip(i + 1),
            sample_rate,
            channels,
        ),
{
    assert(ranges.skip(i).drop_first() =~= ranges.skip(i + 1));
    assert(ranges.skip(i)[0] == ranges[i]);
}

/// Negotiates a stream configuration from the ranges a device advertises:
/// the first range whose channel count equals `channels` and whose rate
/// range covers `sample_rate` wins, and its native representation is kept.
pub fn resolve(
    ranges: &Vec<SupportedConfigRange>,
    sample_rate: u32,
    channels: u16,
) -> (r: Result<StreamConfig, ConfigError>)
    ensures
        r == resolve_outcome(ranges@, sample_rate, channels),
        r is Ok ==> r->Ok_0.channel_count == channels && r->Ok_0.sample_rate == sample_rate,
        r is Ok <==> exists|i: int|
            0 <= i < ranges@.len() && range_matches(ranges@[i], sample_rate, channels),
{
    let n = ranges.len();
    let mut i: usize = 0;
    assert(ranges@.skip(0) =~= ranges@);
    while i < n
        invariant
            0 <= i <= n,
            n == ranges@.len(),
            first_matching_range(ranges@, sample_rate, channels) == first_matching_range(
                ranges@.skip(i as int),
                sample_rate,
                channels,
            ),
            forall|j: int| 0 <= j < i ==> !range_matches(ranges@[j], sample_rate, channels),
        decreases n - i,
    {
        let c = ranges[i];
        if c.channels == channels && c.min_sample_rate <= sample_rate
            && sample_rate <= c.max_sample_rate {
            assert(ranges@.skip(i as int)[0] == ranges@[i as int]);
            return Ok(
                StreamConfig {
                    sample_rate: sample_rate,
                    channel_count: channels,
                    representation: c.representation,
                },
            );
        }
        proof {
            lemma_first_matching_range_step(ranges@, sample_rate, channels, i as int);
        }
        i = i + 1;
    }
    assert(ranges@.skip(n as int) =~= Seq::<SupportedConfigRange>::empty());
    Err(ConfigError::Unsupported)
}

/// Converts one device sample in unsigned 16-bit representation to the
/// signed 16-bit sample the WAV file stores: the midpoint 32768 maps to 0.
pub fn u16_sample_to_i16(s: u16) -> (r: i16)
    ensures
        r as int == s as int - 32768,
{
    ((s as i32) - 32768) as i16
}

/// The inverse conversion, used on the playback path.
pub fn i16_sample_to_u16(s: i16) -> (r: u16)
    ensures
        r as int == s as int + 32768,
{
    ((s as i32) + 32768) as u16
}

/// The WAV sample kind a device representation is stored as.
pub open spec fn spec_sample_format(format: SampleRepresentation) -> SampleKind {
    match format {
        SampleRepresentation::Int16 => SampleKind::Int,
        SampleRepresentation::UInt16 => SampleKind::Int,
        SampleRepresentation::Float32 => SampleKind::Float,
    }
}

/// The WAV bit width a device representation is stored at.
pub open spec fn spec_sample_bits(format: SampleRepresentation) -> u16 {
    match format {
        SampleRepresentation::Float32 => 32,
        _ => 16,
    }
}

/// Maps a device sample representation to the WAV sample kind: both
/// integer representations are stored as 16-bit PCM, floats as 32-bit
/// IEEE float.
pub fn sample_format(format: SampleRepresentation) -> (r: SampleKind)
    ensures
        r == spec_sample_format(format),
{
    match format {
        SampleRepresentation::Int16 => SampleKind::Int,
        SampleRepresentation::UInt16 => SampleKind::Int,
        SampleRepresentation::Float32 => SampleKind::Float,
    }
}

/// A negotiated configuration a recording can actually be written from:
/// positive bounded rate and a channel count whose frame stride fits
/// the WAV header fields.
pub open spec fn stream_config_wf(c: StreamConfig) -> bool {
    &&& 1 <= c.sample_rate <= crate::wav::MAX_SAMPLE_RATE
    &&& 1 <= c.channel_count
    &&& c.channel_count as nat * crate::wav::spec_bytes_per(spec_sample_bits(c.representation))
        <= 0xffff
    &&& c.sample_rate as nat * (c.channel_count as nat * crate::wav::spec_bytes_per(
        spec_sample_bits(c.representation),
    )) <= 0xffff_ffff
}

/// Derives the WAV metadata a recording at this stream configuration is
/// written with.
pub fn wav_spec_from_config(config: &StreamConfig) -> (r: WavSpec)
    ensures
        r == (WavSpec {
            channels: config.channel_count,
            sample_rate: config.sample_rate,
            bits_per_sample: spec_sample_bits(config.representation),
            sample_format: spec_sample_format(config.representation),
        }),
        stream_config_wf(*config) ==> crate::wav::wav_spec_wf(r),
{
    WavSpec {
        channels: config.channel_count,
        sample_rate: config.sample_rate,
        bits_per_sample: if matches!(config.representation, SampleRepresentation::Float32) {
            32
        } else {
            16
        },
        sample_format: sample_format(config.representation),
    }
}


/// Decides [`stream_config_wf`] executably, so a caller that received
/// a configuration from elsewhere can test it before recording with
/// it.
pub fn stream_config_ok(c: &StreamConfig) -> (r: bool)
    ensures
        r == stream_config_wf(*c),
{
    let bytes_per: u64 = if matches!(c.representation, SampleRepresentation::Float32) {
        4
    } else {
        2
    };
    let stride: u64 = (c.channel_count as u64) * bytes_per;
    proof {
        assert(stride <= 0x4_0000) by (nonlinear_arith)
            requires
                stride == c.channel_count as int * bytes_per as int,
                c.channel_count <= 0xffff,
                bytes_per <= 4,
        ;
        assert((c.sample_rate as int) * (stride as int) < 0x10_0000_0000_0000) by (nonlinear_arith)
            requires
                c.sample_rate <= 0xffff_ffff,
                stride <= 0x4_0000,
        ;
    }
    1 <= c.sample_rate && c.sample_rate <= crate::wav::MAX_SAMPLE_RATE && 1 <= c.channel_count
        && stride <= 0xffff && (c.sample_rate as u64) * stride <= 0xffff_ffff
}

} // verus!
