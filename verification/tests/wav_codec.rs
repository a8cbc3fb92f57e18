use std::io::Cursor;

use narrative_director::wav::{
    encode_wav, parse_wav, SampleKind, SeekError, WavClip, WavError, WavSpec,
};

fn pcm16_clip() -> WavClip {
    WavClip {
        format: WavSpec {
            channels: 1,
            sample_rate: 8000,
            bits_per_sample: 16,
            sample_format: SampleKind::Int,
        },
        samples: vec![0, 1, 0x7fff, 0x8000, 0xffff, 1234],
    }
}

fn float32_clip() -> WavClip {
    // Float samples are carried as bit patterns; 0x3f80_0000 is 1.0f32.
    WavClip {
        format: WavSpec {
            channels: 2,
            sample_rate: 48000,
            bits_per_sample: 32,
            sample_format: SampleKind::Float,
        },
        samples: vec![0, 0x3f80_0000, 0xbf80_0000, 0x3f00_0000],
    }
}

#[test]
fn encode_produces_canonical_header() {
    let bytes = encode_wav(&pcm16_clip());
    assert_eq!(bytes.len(), 44 + 6 * 2);
    assert_eq!(&bytes[0..4], b"RIFF");
    assert_eq!(&bytes[8..12], b"WAVE");
    assert_eq!(&bytes[12..16], b"fmt ");
    assert_eq!(&bytes[36..40], b"data");
    // fmt chunk size 16, format code 1, mono, 8000 Hz, 16 bits.
    assert_eq!(&bytes[16..20], &[16, 0, 0, 0]);
    assert_eq!(&bytes[20..22], &[1, 0]);
    assert_eq!(&bytes[22..24], &[1, 0]);
    assert_eq!(&bytes[24..28], &[0x40, 0x1f, 0, 0]);
    assert_eq!(&bytes[34..36], &[16, 0]);
}

#[test]
fn parse_inverts_encode_for_pcm16() {
    let clip = pcm16_clip();
    let bytes = encode_wav(&clip);
    let parsed = parse_wav(&bytes).expect("round trip parses");
    assert_eq!(parsed, clip);
}

#[test]
fn parse_inverts_encode_for_float32() {
    let clip = float32_clip();
    let bytes = encode_wav(&clip);
    let parsed = parse_wav(&bytes).expect("round trip parses");
    assert_eq!(parsed, clip);
}

#[test]
fn truncated_input_is_rejected() {
    let clip = pcm16_clip();
    let bytes = encode_wav(&clip);
    let short: Vec<u8> = bytes[0..43].to_vec();
    assert_eq!(parse_wav(&short), Err(WavError::Truncated));
    assert_eq!(parse_wav(&Vec::new()), Err(WavError::Truncated));
}

#[test]
fn bad_magic_is_rejected() {
    let mut bytes = encode_wav(&pcm16_clip());
    bytes[0] = b'X';
    assert_eq!(parse_wav(&bytes), Err(WavError::BadHeader));
}

#[test]
fn unsupported_bit_depth_is_rejected() {
    let mut bytes = encode_wav(&pcm16_clip());
    // Claim 8 bits per sample: not a supported layout.
    bytes[34] = 8;
    assert_eq!(parse_wav(&bytes), Err(WavError::UnsupportedFormat));
}

#[test]
fn zero_channels_is_rejected() {
    let mut bytes = encode_wav(&pcm16_clip());
    bytes[22] = 0;
    bytes[23] = 0;
    assert_eq!(parse_wav(&bytes), Err(WavError::UnsupportedFormat));
}

#[test]
fn data_length_mismatch_is_rejected() {
    let mut bytes = encode_wav(&pcm16_clip());
    // One byte too few in the declared data size.
    bytes[40] = bytes[40].wrapping_sub(1);
    assert_eq!(parse_wav(&bytes), Err(WavError::BadDataSize));
}

#[test]
fn ragged_frame_is_rejected() {
    // A stereo file whose data holds an odd number of samples.
    let clip = WavClip {
        format: WavSpec {
            channels: 2,
            sample_rate: 8000,
            bits_per_sample: 16,
            sample_format: SampleKind::Int,
        },
        samples: vec![1, 2, 3, 4],
    };
    let mut bytes = encode_wav(&clip);
    // Drop the last sample word from both the data and its size field.
    bytes.truncate(bytes.len() - 2);
    let declared = u32::from_le_bytes([bytes[40], bytes[41], bytes[42], bytes[43]]) - 2;
    bytes[40..44].copy_from_slice(&declared.to_le_bytes());
    let riff = u32::from_le_bytes([bytes[4], bytes[5], bytes[6], bytes[7]]) - 2;
    bytes[4..8].copy_from_slice(&riff.to_le_bytes());
    assert_eq!(parse_wav(&bytes), Err(WavError::BadDataSize));
}

#[test]
fn hound_reads_what_the_codec_writes() {
    let clip = pcm16_clip();
    let bytes = encode_wav(&clip);
    let mut reader = hound::WavReader::new(Cursor::new(bytes)).expect("hound accepts the file");
    let spec = reader.spec();
    assert_eq!(spec.channels, 1);
    assert_eq!(spec.sample_rate, 8000);
    assert_eq!(spec.bits_per_sample, 16);
    assert_eq!(spec.sample_format, hound::SampleFormat::Int);
    assert_eq!(reader.duration(), 6);

    let samples: Vec<i16> = reader.samples::<i16>().map(|s| s.unwrap()).collect();
    let expected: Vec<i16> = clip.samples.iter().map(|&w| w as u16 as i16).collect();
    assert_eq!(samples, expected);
}

#[test]
fn codec_reads_what_hound_writes() {
    let spec = hound::WavSpec {
        channels: 2,
        sample_rate: 44100,
        bits_per_sample: 16,
        sample_format: hound::SampleFormat::Int,
    };
    let mut cursor = Cursor::new(Vec::new());
    {
        let mut writer = hound::WavWriter::new(&mut cursor, spec).unwrap();
        for s in [-32768i16, -1, 0, 1, 32767, 100] {
            writer.write_sample(s).unwrap();
        }
        writer.finalize().unwrap();
    }
    let bytes = cursor.into_inner();
    let clip = parse_wav(&bytes).expect("hound output parses");
    assert_eq!(clip.format.channels, 2);
    assert_eq!(clip.format.sample_rate, 44100);
    assert_eq!(clip.format.bits_per_sample, 16);
    assert_eq!(clip.format.sample_format, SampleKind::Int);
    let expected: Vec<u32> =
        [-32768i16, -1, 0, 1, 32767, 100].iter().map(|&s| s as u16 as u32).collect();
    assert_eq!(clip.samples, expected);
}

#[test]
fn whole_second_clip_duration_is_exact() {
    // A clip recorded for N whole seconds has duration exactly N.
    let clip = WavClip {
        format: WavSpec {
            channels: 1,
            sample_rate: 8000,
            bits_per_sample: 16,
            sample_format: SampleKind::Int,
        },
        samples: vec![0; 2 * 8000],
    };
    assert_eq!(clip.total_sample_count(), 2 * 8000);
    assert_eq!(clip.duration_secs(), 2);
}

#[test]
fn duration_rounds_to_nearest_second() {
    let make = |frames: usize| WavClip {
        format: WavSpec {
            channels: 1,
            sample_rate: 1000,
            bits_per_sample: 16,
            sample_format: SampleKind::Int,
        },
        samples: vec![0; frames],
    };
    assert_eq!(make(1499).duration_secs(), 1);
    assert_eq!(make(1500).duration_secs(), 2);
    assert_eq!(make(0).duration_secs(), 0);
}

#[test]
fn seek_by_frame_checks_the_boundary() {
    let clip = WavClip {
        format: WavSpec {
            channels: 2,
            sample_rate: 1000,
            bits_per_sample: 16,
            sample_format: SampleKind::Int,
        },
        samples: vec![0; 6],
    };
    assert_eq!(clip.seek_to_sample(0), Ok(0));
    assert_eq!(clip.seek_to_sample(2), Ok(4));
    // Seeking exactly to the end is allowed; one frame further is not.
    assert_eq!(clip.seek_to_sample(3), Ok(6));
    assert_eq!(clip.seek_to_sample(4), Err(SeekError::SeekOutOfRange));
}
