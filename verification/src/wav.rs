//! WAV clip encoding and decoding.
//!
//! A clip is a canonical RIFF/WAVE file: a 44-byte header (a `fmt ` chunk
//! of 16 bytes followed directly by the `data` chunk) and the raw sample
//! words, little endian.  Two sample layouts are supported: 16-bit PCM
//! integers (format code 1) and 32-bit IEEE float (format code 3).  Float
//! samples are carried as their 32-bit patterns, so the codec itself
//! never does floating-point arithmetic.

use vstd::prelude::*;

verus! {

/// How the samples of a WAV file are to be interpreted.
#[derive(Clone, Copy, Debug, PartialEq, Eq, Structural)]
pub enum SampleKind {
    Int,
    Float,
}

/// The metadata of a WAV file.
#[derive(Clone, Copy, Debug, PartialEq, Eq, Structural)]
pub struct WavSpec {
    pub channels: u16,
    pub sample_rate: u32,
    pub bits_per_sample: u16,
    pub sample_format: SampleKind,
}

/// A decoded clip: its metadata and its raw sample words.  A 16-bit
/// sample occupies the low half of its word; a 32-bit float sample is
/// carried as its bit pattern.
#[derive(Clone, Debug, PartialEq, Eq)]
pub struct WavClip {
    pub format: WavSpec,
    pub samples: Vec<u32>,
}

/// Why a byte string is not a clip this codec accepts.
#[derive(Clone, Copy, Debug, PartialEq, Eq, Structural)]
pub enum WavError {
    /// Shorter than the 44-byte canonical header.
    Truncated,
    /// A RIFF/WAVE/fmt/data tag or the fmt chunk size is wrong.
    BadHeader,
    /// Not 16-bit PCM or 32-bit float, or a zero channel count, or a
    /// sample rate of zero or beyond the supported bound.
    UnsupportedFormat,
    /// The data chunk length disagrees with the file length, or is not a
    /// whole number of frames.
    BadDataSize,
}

/// The largest sample rate the codec accepts; keeps every header field,
/// including the byte rate, within 32 bits.
pub const MAX_SAMPLE_RATE: u32 = 0x0fff_ffff;

/// Well-formed metadata: only the two supported layouts, at least one
/// channel, and a positive, bounded sample rate.
pub open spec fn wav_spec_wf(s: WavSpec) -> bool {
    &&& s.channels >= 1
    &&& 1 <= s.sample_rate <= MAX_SAMPLE_RATE
    &&& ((s.bits_per_sample == 16 && s.sample_format == SampleKind::Int) || (s.bits_per_sample
        == 32 && s.sample_format == SampleKind::Float))
    &&& spec_block_align(s) <= 0xffff
    &&& s.sample_rate as nat * spec_block_align(s) <= 0xffff_ffff
}

/// Bytes per sample word for a supported bit width.
pub open spec fn spec_bytes_per(bits: u16) -> nat {
    if bits == 16 {
        2
    } else {
        4
    }
}

/// Well-formed clip: well-formed metadata, whole frames, sample words
/// that fit their width, and a data chunk whose size fits the header.
pub open spec fn wav_clip_wf(c: WavClip) -> bool {
    &&& wav_spec_wf(c.format)
    &&& c.samples@.len() % (c.format.channels as nat) == 0
    &&& c.samples@.len() * spec_bytes_per(c.format.bits_per_sample) <= 0xffff_ffff - 36
    &&& (c.format.bits_per_sample == 16 ==> forall|i: int|
        0 <= i < c.samples@.len() ==> c.samples@[i] < 0x1_0000)
}

/// A `u16` header field as two little-endian bytes.
pub open spec fn le16(n: u16) -> Seq<u8> {
    seq![(n & 0xff) as u8, ((n >> 8) & 0xff) as u8]
}

/// A `u32` header field as four little-endian bytes.
pub open spec fn le32(n: u32) -> Seq<u8> {
    seq![
        (n & 0xff) as u8,
        ((n >> 8) & 0xff) as u8,
        ((n >> 16) & 0xff) as u8,
        ((n >> 24) & 0xff) as u8,
    ]
}

/// The RIFF format code of a sample kind: 1 for PCM, 3 for IEEE float.
pub open spec fn format_code(k: SampleKind) -> u16 {
    if k == SampleKind::Int {
        1
    } else {
        3
    }
}

/// Frame stride in bytes.
pub open spec fn spec_block_align(s: WavSpec) -> nat {
    s.channels as nat * spec_bytes_per(s.bits_per_sample)
}

/// The canonical 44-byte header for metadata `s` and a data chunk of
/// `data_len` bytes.
pub open spec fn spec_header(s: WavSpec, data_len: nat) -> Seq<u8>
    recommends
        wav_spec_wf(s),
        data_len <= 0xffff_ffff - 36,
{
    seq![0x52u8, 0x49u8, 0x46u8, 0x46u8]  // "RIFF"
     + le32((36 + data_len) as u32) + seq![0x57u8, 0x41u8, 0x56u8, 0x45u8]  // "WAVE"
     + seq![0x66u8, 0x6du8, 0x74u8, 0x20u8]  // "fmt "
     + le32(16) + le16(format_code(s.sample_format)) + le16(s.channels) + le32(s.sample_rate)
        + le32((s.sample_rate as nat * spec_block_align(s)) as u32) + le16(
        spec_block_align(s) as u16,
    ) + le16(s.bits_per_sample) + seq![0x64u8, 0x61u8, 0x74u8, 0x61u8]  // "data"
     + le32(data_len as u32)
}

/// One sample word as bytes of the given width.
pub open spec fn spec_sample_le(x: u32, bits: u16) -> Seq<u8> {
    if bits == 16 {
        le16(x as u16)
    } else {
        le32(x)
    }
}

/// All sample words as bytes, in order.
pub open spec fn spec_sample_bytes(samples: Seq<u32>, bits: u16) -> Seq<u8>
    decreases samples.len(),
{
    if samples.len() == 0 {
        Seq::<u8>::empty()
    } else {
        spec_sample_le(samples[0], bits) + spec_sample_bytes(samples.drop_first(), bits)
    }
}

/// The whole encoded file.
pub open spec fn spec_encode(s: WavSpec, samples: Seq<u32>) -> Seq<u8> {
    spec_header(s, samples.len() * spec_bytes_per(s.bits_per_sample)) + spec_sample_bytes(
        samples,
        s.bits_per_sample,
    )
}

proof fn lemma_sample_bytes_len(samples: Seq<u32>, bits: u16)
    ensures
        spec_sample_bytes(samples, bits).len() == samples.len() * spec_bytes_per(bits),
    decreases samples.len(),
{
    if samples.len() > 0 {
        lemma_sample_bytes_len(samples.drop_first(), bits);
        let bp = spec_bytes_per(bits);
        assert((samples.len() - 1) * bp + bp == samples.len() * bp) by (nonlinear_arith);
    }
}

proof fn lemma_sample_bytes_push(samples: Seq<u32>, x: u32, bits: u16)
    ensures
        spec_sample_bytes(samples.push(x), bits) == spec_sample_bytes(samples, bits)
            + spec_sample_le(x, bits),
    decreases samples.len(),
{
    let p = samples.push(x);
    if samples.len() == 0 {
        assert(p.len() == 1 && p[0] == x);
        assert(p.drop_first() =~= Seq::<u32>::empty());
        assert(spec_sample_bytes(p, bits) == spec_sample_le(p[0], bits) + spec_sample_bytes(
            p.drop_first(),
            bits,
        ));
        assert(spec_sample_bytes(Seq::<u32>::empty(), bits) == Seq::<u8>::empty());
        assert(spec_sample_le(x, bits) + Seq::<u8>::empty() =~= spec_sample_le(x, bits));
        assert(spec_sample_bytes(samples, bits) + spec_sample_le(x, bits) =~= spec_sample_le(
            x,
            bits,
        ));
    } else {
        assert(samples.push(x).drop_first() =~= samples.drop_first().push(x));
        lemma_sample_bytes_push(samples.drop_first(), x, bits);
        assert(spec_sample_bytes(samples.push(x), bits) =~= spec_sample_bytes(samples, bits)
            + spec_sample_le(x, bits));
    }
}

/// Appends the two little-endian bytes of `n`.
fn push_le16(out: &mut Vec<u8>, n: u16)
    ensures
        final(out)@ == old(out)@ + le16(n),
{
    out.push((n & 0xff) as u8);
    out.push(((n >> 8) & 0xff) as u8);
    assert(out@ =~= old(out)@ + le16(n));
}

/// Appends the four little-endian bytes of `n`.
fn push_le32(out: &mut Vec<u8>, n: u32)
    ensures
        final(out)@ == old(out)@ + le32(n),
{
    out.push((n & 0xff) as u8);
    out.push(((n >> 8) & 0xff) as u8);
    out.push(((n >> 16) & 0xff) as u8);
    out.push(((n >> 24) & 0xff) as u8);
    assert(out@ =~= old(out)@ + le32(n));
}

/// Executable frame stride in bytes.
fn block_align(s: &WavSpec) -> (r: u16)
    requires
        wav_spec_wf(*s),
    ensures
        r as nat == spec_block_align(*s),
{
    let bytes: u16 = if s.bits_per_sample == 16 {
        2
    } else {
        4
    };
    s.channels * bytes
}

/// Writes the canonical 44-byte header.
#[verifier::rlimit(60)]
fn encode_header(s: &WavSpec, data_len: u32) -> (r: Vec<u8>)
    requires
        wav_spec_wf(*s),
        data_len <= 0xffff_ffff - 36,
    ensures
        r@ == spec_header(*s, data_len as nat),
{
    let align = block_align(s);
    let byte_rate: u32 = s.sample_rate * (align as u32);

    let mut out: Vec<u8> = Vec::new();
    out.push(0x52);
    out.push(0x49);
    out.push(0x46);
    out.push(0x46);
    push_le32(&mut out, 36 + data_len);
    out.push(0x57);
    out.push(0x41);
    out.push(0x56);
    out.push(0x45);
    out.push(0x66);
    out.push(0x6d);
    out.push(0x74);
    out.push(0x20);
    push_le32(&mut out, 16);
    push_le16(&mut out, if s.sample_format == SampleKind::Int {
        1
    } else {
        3
    });
    push_le16(&mut out, s.channels);
    push_le32(&mut out, s.sample_rate);
    push_le32(&mut out, byte_rate);
    push_le16(&mut out, align);
    push_le16(&mut out, s.bits_per_sample);
    out.push(0x64);
    out.push(0x61);
    out.push(0x74);
    out.push(0x61);
    push_le32(&mut out, data_len);
    assert(out@ =~= spec_header(*s, data_len as nat));
    out
}

/// Encodes a clip as a canonical WAV file.
pub fn encode_wav(clip: &WavClip) -> (r: Vec<u8>)
    requires
        wav_clip_wf(*clip),
    ensures
        r@ == spec_encode(clip.format, clip.samples@),
        r@.len() == 44 + clip.samples@.len() * spec_bytes_per(clip.format.bits_per_sample),
{
    let s = clip.format;
    let bytes_per: u32 = if s.bits_per_sample == 16 {
        2
    } else {
        4
    };
    proof {
        assert(clip.samples@.len() <= clip.samples@.len() * spec_bytes_per(s.bits_per_sample))
            by (nonlinear_arith)
            requires
                spec_bytes_per(s.bits_per_sample) >= 1,
        ;
    }
    let data_len: u32 = (clip.samples.len() as u32) * bytes_per;
    let mut out: Vec<u8> = encode_header(&s, data_len);
    let ghost header = out@;
    let n = clip.samples.len();
    let mut i: usize = 0;
    assert(clip.samples@.take(0) =~= Seq::<u32>::empty());
    while i < n
        invariant
            0 <= i <= n,
            n == clip.samples@.len(),
            wav_clip_wf(*clip),
            s == clip.format,
            out@ == header + spec_sample_bytes(clip.samples@.take(i as int), s.bits_per_sample),
        decreases n - i,
    {
        let x = clip.samples[i];
        if s.bits_per_sample == 16 {
            push_le16(&mut out, x as u16);
        } else {
            push_le32(&mut out, x);
        }
        proof {
            lemma_sample_bytes_push(clip.samples@.take(i as int), x, s.bits_per_sample);
            assert(clip.samples@.take(i as int).push(x) =~= clip.samples@.take(i as int + 1));
        }
        i = i + 1;
    }
    proof {
        assert(clip.samples@.take(n as int) =~= clip.samples@);
        lemma_sample_bytes_len(clip.samples@, s.bits_per_sample);
    }
    out
}

/// A 16-bit little-endian word read at offset `i`.
pub open spec fn d16(b: Seq<u8>, i: int) -> u16 {
    (b[i] as u16) | ((b[i + 1] as u16) << 8)
}

/// A 32-bit little-endian word read at offset `i`.
pub open spec fn d32(b: Seq<u8>, i: int) -> u32 {
    (b[i] as u32) | ((b[i + 1] as u32) << 8) | ((b[i + 2] as u32) << 16) | ((b[i + 3] as u32)
        << 24)
}

/// One sample word read at offset `i` with the given width.
pub open spec fn dec_sample(b: Seq<u8>, i: int, bits: u16) -> u32 {
    if bits == 16 {
        d16(b, i) as u32
    } else {
        d32(b, i)
    }
}

/// All sample words from offset `i` to the end, in order.
pub open spec fn decode_samples(b: Seq<u8>, i: int, bits: u16) -> Seq<u32>
    decreases b.len() - i,
{
    if i < 0 || i + spec_bytes_per(bits) > b.len() {
        Seq::<u32>::empty()
    } else {
        seq![dec_sample(b, i, bits)] + decode_samples(b, i + spec_bytes_per(bits), bits)
    }
}

/// The RIFF, WAVE, fmt and data tags and the fmt chunk size of a
/// canonical header.
pub open spec fn header_tags_ok(b: Seq<u8>) -> bool {
    &&& b[0] == 0x52 && b[1] == 0x49 && b[2] == 0x46 && b[3] == 0x46
    &&& b[8] == 0x57 && b[9] == 0x41 && b[10] == 0x56 && b[11] == 0x45
    &&& b[12] == 0x66 && b[13] == 0x6d && b[14] == 0x74 && b[15] == 0x20
    &&& d32(b, 16) == 16
    &&& b[36] == 0x64 && b[37] == 0x61 && b[38] == 0x74 && b[39] == 0x61
}

/// The metadata the header fields carry.
pub open spec fn parsed_spec(b: Seq<u8>) -> WavSpec {
    WavSpec {
        channels: d16(b, 22),
        sample_rate: d32(b, 24),
        bits_per_sample: d16(b, 34),
        sample_format: if d16(b, 20) == 1 {
            SampleKind::Int
        } else {
            SampleKind::Float
        },
    }
}

/// A supported format: the code and bit width agree and the metadata is
/// well formed.
pub open spec fn header_format_ok(b: Seq<u8>) -> bool {
    &&& (d16(b, 20) == 1 && d16(b, 34) == 16) || (d16(b, 20) == 3 && d16(b, 34) == 32)
    &&& wav_spec_wf(parsed_spec(b))
}

/// A data chunk that spans exactly the rest of the file, fits a RIFF
/// size field, and holds a whole number of frames.
pub open spec fn header_data_ok(b: Seq<u8>) -> bool {
    &&& d32(b, 40) == b.len() - 44
    &&& b.len() - 44 <= 0xffff_ffff - 36
    &&& (b.len() - 44) % (spec_block_align(parsed_spec(b)) as int) == 0
}

/// What parsing owes on every input: the unique reading of a canonical
/// WAV file, or the first applicable error.
pub open spec fn spec_parse(b: Seq<u8>) -> Result<(WavSpec, Seq<u32>), WavError> {
    if b.len() < 44 {
        Err(WavError::Truncated)
    } else if !header_tags_ok(b) {
        Err(WavError::BadHeader)
    } else if !header_format_ok(b) {
        Err(WavError::UnsupportedFormat)
    } else if !header_data_ok(b) {
        Err(WavError::BadDataSize)
    } else {
        Ok((parsed_spec(b), decode_samples(b, 44, parsed_spec(b).bits_per_sample)))
    }
}

/// Reads a 16-bit little-endian word.
fn read_u16(b: &Vec<u8>, i: usize) -> (r: u16)
    requires
        i + 2 <= b@.len(),
        b@.len() <= usize::MAX,
    ensures
        r == d16(b@, i as int),
{
    (b[i] as u16) | ((b[i + 1] as u16) << 8u16)
}

/// Reads a 32-bit little-endian word.
fn read_u32(b: &Vec<u8>, i: usize) -> (r: u32)
    requires
        i + 4 <= b@.len(),
        b@.len() <= usize::MAX,
    ensures
        r == d32(b@, i as int),
{
    (b[i] as u32) | ((b[i + 1] as u32) << 8u32) | ((b[i + 2] as u32) << 16u32) | ((b[i + 3] as u32)
        << 24u32)
}

/// Parses a canonical WAV file: exactly the inverse of `encode_wav` on
/// well-formed clips, and a precise error otherwise.
pub fn parse_wav(bytes: &Vec<u8>) -> (r: Result<WavClip, WavError>)
    ensures
        match r {
            Ok(clip) => spec_parse(bytes@) == Ok::<(WavSpec, Seq<u32>), WavError>(
                (clip.format, clip.samples@),
            ) && wav_clip_wf(clip),
            Err(e) => spec_parse(bytes@) == Err::<(WavSpec, Seq<u32>), WavError>(e),
        },
{
    let n = bytes.len();
    if n < 44 {
        return Err(WavError::Truncated);
    }
    let tags_ok = bytes[0] == 0x52 && bytes[1] == 0x49 && bytes[2] == 0x46 && bytes[3] == 0x46
        && bytes[8] == 0x57 && bytes[9] == 0x41 && bytes[10] == 0x56 && bytes[11] == 0x45
        && bytes[12] == 0x66 && bytes[13] == 0x6d && bytes[14] == 0x74 && bytes[15] == 0x20
        && bytes[36] == 0x64 && bytes[37] == 0x61 && bytes[38] == 0x74 && bytes[39] == 0x61;
    if !(tags_ok && read_u32(bytes, 16) == 16) {
        return Err(WavError::BadHeader);
    }
    let code = read_u16(bytes, 20);
    let channels = read_u16(bytes, 22);
    let sample_rate = read_u32(bytes, 24);
    let bits = read_u16(bytes, 34);
    let kind = if code == 1 {
        SampleKind::Int
    } else {
        SampleKind::Float
    };
    let layout_ok = (code == 1 && bits == 16) || (code == 3 && bits == 32);
    if !layout_ok {
        return Err(WavError::UnsupportedFormat);
    }
    let bytes_per: u64 = if bits == 16 {
        2
    } else {
        4
    };
    let align: u64 = (channels as u64) * bytes_per;
    assert(align <= 0x4_0000);
    proof {
        assert((sample_rate as int) * (align as int) < 0x10_0000_0000_0000) by (nonlinear_arith)
            requires
                sample_rate <= 0xffff_ffff,
                align <= 0x4_0000,
        ;
    }
    if !(channels >= 1 && 1 <= sample_rate && sample_rate <= MAX_SAMPLE_RATE && align <= 0xffff
        && (sample_rate as u64) * align <= 0xffff_ffff) {
        return Err(WavError::UnsupportedFormat);
    }
    let wspec = WavSpec { channels, sample_rate, bits_per_sample: bits, sample_format: kind };
    assert(wspec == parsed_spec(bytes@));
    assert(wav_spec_wf(wspec));
    let data_len = read_u32(bytes, 40);
    let rest: usize = n - 44;
    if !(data_len as usize == rest && data_len <= 0xffff_ffff - 36 && rest as u64 % align == 0) {
        return Err(WavError::BadDataSize);
    }

    let bp: usize = if bits == 16 {
        2
    } else {
        4
    };
    proof {
        let bpi = bp as int;
        let chi = channels as int;
        let r = rest as int;
        vstd::arithmetic::div_mod::lemma_fundamental_div_mod(r, align as int);
        let q = r / (align as int);
        assert(r == (chi * q) * bpi) by (nonlinear_arith)
            requires
                align == chi * bpi,
                r == align as int * q,
        ;
        vstd::arithmetic::div_mod::lemma_mod_multiples_basic(chi * q, bpi);
        assert(r % bpi == 0);
        vstd::arithmetic::div_mod::lemma_div_multiples_vanish(chi * q, bpi);
        assert(bpi * (chi * q) == (chi * q) * bpi) by (nonlinear_arith);
        assert(r / bpi == chi * q);
        vstd::arithmetic::div_mod::lemma_mod_multiples_basic(q, chi);
        assert(chi * q == q * chi) by (nonlinear_arith);
        assert((r / bpi) % chi == 0);
        assert((r / bpi) * bpi == r) by (nonlinear_arith)
            requires
                r / bpi == chi * q,
                r == (chi * q) * bpi,
        ;
    }
    let mut samples: Vec<u32> = Vec::new();
    let mut i: usize = 44;
    while i < n
        invariant
            44 <= i <= n,
            n == bytes@.len(),
            (i - 44) % (bp as int) == 0,
            (n - i) % (bp as int) == 0,
            bp == spec_bytes_per(bits),
            bits == 16 || bits == 32,
            decode_samples(bytes@, 44, bits) == samples@ + decode_samples(bytes@, i as int, bits),
            samples@.len() * bp as int == i - 44,
            bits == 16 ==> forall|j: int| 0 <= j < samples@.len() ==> samples@[j] < 0x1_0000,
        decreases n - i,
    {
        proof {
            assert(n - i >= bp) by (nonlinear_arith)
                requires
                    (n - i) % (bp as int) == 0,
                    n - i > 0,
                    bp >= 1,
            ;
        }
        let x: u32 = if bits == 16 {
            read_u16(bytes, i) as u32
        } else {
            read_u32(bytes, i)
        };
        proof {
            assert(x == dec_sample(bytes@, i as int, bits));
            assert(decode_samples(bytes@, i as int, bits) == seq![x] + decode_samples(
                bytes@,
                i + bp as int,
                bits,
            ));
            assert(samples@ + decode_samples(bytes@, i as int, bits) =~= samples@.push(x)
                + decode_samples(bytes@, i + bp as int, bits));
        }
        samples.push(x);
        i = i + bp;
    }
    assert(decode_samples(bytes@, n as int, bits) =~= Seq::<u32>::empty());
    assert(samples@ + Seq::<u32>::empty() =~= samples@);
    let clip = WavClip { format: wspec, samples };
    proof {
        assert(clip.samples@.len() * (bp as int) == rest);
        assert(clip.samples@.len() % (channels as nat) == 0 && clip.samples@.len() * (
        bp as int) <= 0xffff_ffff - 36) by (nonlinear_arith)
            requires
                bp >= 1,
                channels >= 1,
                clip.samples@.len() * (bp as int) == rest,
                rest as int % (bp as int) == 0,
                (rest as int / bp as int) % (channels as int) == 0,
                (rest as int / bp as int) * bp as int == rest as int,
                rest <= 0xffff_ffff - 36,
        ;
    }
    Ok(clip)
}


proof fn lemma_d16_of_le16(b: Seq<u8>, i: int, n: u16)
    requires
        0 <= i,
        i + 2 <= b.len(),
        b[i] == le16(n)[0],
        b[i + 1] == le16(n)[1],
    ensures
        d16(b, i) == n,
{
    assert((((n & 0xff) as u8) as u16) | (((((n >> 8) & 0xff) as u8) as u16) << 8) == n)
        by (bit_vector);
}

proof fn lemma_d32_of_le32(b: Seq<u8>, i: int, n: u32)
    requires
        0 <= i,
        i + 4 <= b.len(),
        b[i] == le32(n)[0],
        b[i + 1] == le32(n)[1],
        b[i + 2] == le32(n)[2],
        b[i + 3] == le32(n)[3],
    ensures
        d32(b, i) == n,
{
    assert((((n & 0xff) as u8) as u32) | (((((n >> 8) & 0xff) as u8) as u32) << 8) | (((((n >> 16)
        & 0xff) as u8) as u32) << 16) | (((((n >> 24) & 0xff) as u8) as u32) << 24) == n)
        by (bit_vector);
}

proof fn lemma_decode_of_sample_bytes(front: Seq<u8>, samples: Seq<u32>, bits: u16)
    requires
        bits == 16 || bits == 32,
        bits == 16 ==> forall|j: int| 0 <= j < samples.len() ==> samples[j] < 0x1_0000,
    ensures
        decode_samples(front + spec_sample_bytes(samples, bits), front.len() as int, bits)
            == samples,
    decreases samples.len(),
{
    let bp = spec_bytes_per(bits) as int;
    let b = front + spec_sample_bytes(samples, bits);
    lemma_sample_bytes_len(samples, bits);
    if samples.len() == 0 {
        assert(decode_samples(b, front.len() as int, bits) =~= Seq::<u32>::empty());
        assert(samples =~= Seq::<u32>::empty());
    } else {
        let x = samples[0];
        let rest = samples.drop_first();
        let front2 = front + spec_sample_le(x, bits);
        assert(b =~= front2 + spec_sample_bytes(rest, bits));
        lemma_sample_bytes_len(rest, bits);
        assert(samples.len() * bp >= bp) by (nonlinear_arith)
            requires
                samples.len() >= 1,
                bp >= 1,
        ;
        let i = front.len() as int;
        assert(b[i] == spec_sample_le(x, bits)[0]);
        assert(b[i + 1] == spec_sample_le(x, bits)[1]);
        if bits == 16 {
            lemma_d16_of_le16(b, i, x as u16);
            assert(x as u16 as u32 == x) by (bit_vector)
                requires
                    x < 0x1_0000,
            ;
        } else {
            assert(b[i + 2] == spec_sample_le(x, bits)[2]);
            assert(b[i + 3] == spec_sample_le(x, bits)[3]);
            lemma_d32_of_le32(b, i, x);
        }
        assert(dec_sample(b, i, bits) == x);
        lemma_decode_of_sample_bytes(front2, rest, bits);
        assert(decode_samples(front2 + spec_sample_bytes(rest, bits), front2.len() as int, bits)
            == rest);
        assert(front2.len() == i + bp);
        assert(decode_samples(b, i + bp, bits) == rest);
        assert(decode_samples(b, i, bits) == seq![x] + rest);
        assert(seq![x] + rest =~= samples);
    }
}

/// The codec round trip: parsing an encoded well-formed clip gives back
/// exactly its metadata and its samples.
pub proof fn lemma_wav_round_trip(s: WavSpec, samples: Seq<u32>)
    requires
        wav_spec_wf(s),
        samples.len() % (s.channels as nat) == 0,
        samples.len() * spec_bytes_per(s.bits_per_sample) <= 0xffff_ffff - 36,
        s.bits_per_sample == 16 ==> forall|j: int| 0 <= j < samples.len() ==> samples[j]
            < 0x1_0000,
    ensures
        spec_parse(spec_encode(s, samples)) == Ok::<(WavSpec, Seq<u32>), WavError>((s, samples)),
{
    let bits = s.bits_per_sample;
    let bp = spec_bytes_per(bits) as int;
    let dl = (samples.len() * spec_bytes_per(bits)) as nat;
    let h = spec_header(s, dl);
    let b = spec_encode(s, samples);
    lemma_sample_bytes_len(samples, bits);
    assert(h.len() == 44);
    assert(b.len() == 44 + dl);

    assert(header_tags_ok(b)) by {
        assert(b[16] == le32(16)[0] && b[17] == le32(16)[1] && b[18] == le32(16)[2] && b[19]
            == le32(16)[3]);
        lemma_d32_of_le32(b, 16, 16);
    }

    let code = format_code(s.sample_format);
    assert(b[20] == le16(code)[0] && b[21] == le16(code)[1]);
    lemma_d16_of_le16(b, 20, code);
    assert(b[22] == le16(s.channels)[0] && b[23] == le16(s.channels)[1]);
    lemma_d16_of_le16(b, 22, s.channels);
    assert(b[24] == le32(s.sample_rate)[0] && b[25] == le32(s.sample_rate)[1] && b[26] == le32(
        s.sample_rate,
    )[2] && b[27] == le32(s.sample_rate)[3]);
    lemma_d32_of_le32(b, 24, s.sample_rate);
    assert(b[34] == le16(bits)[0] && b[35] == le16(bits)[1]);
    lemma_d16_of_le16(b, 34, bits);
    assert(parsed_spec(b) == s);
    assert(header_format_ok(b));

    assert(b[40] == le32(dl as u32)[0] && b[41] == le32(dl as u32)[1] && b[42] == le32(
        dl as u32,
    )[2] && b[43] == le32(dl as u32)[3]);
    lemma_d32_of_le32(b, 40, dl as u32);
    assert(header_data_ok(b)) by {
        let chi = s.channels as int;
        let k = samples.len() as int / chi;
        vstd::arithmetic::div_mod::lemma_fundamental_div_mod(samples.len() as int, chi);
        assert(samples.len() as int == chi * k);
        let align = spec_block_align(s) as int;
        assert(dl == k * align) by (nonlinear_arith)
            requires
                samples.len() as int == chi * k,
                align == chi * bp,
                dl == samples.len() * bp,
        ;
        vstd::arithmetic::div_mod::lemma_mod_multiples_basic(k, align);
    }

    lemma_decode_of_sample_bytes(h, samples, bits);
    assert(decode_samples(b, 44, bits) == samples);
}

/// Exact whole seconds divide out: a clip of `n * rate` frames at
/// `rate` frames per second lasts exactly `n` seconds.
pub proof fn lemma_whole_second_duration(n: nat, rate: nat)
    requires
        rate >= 1,
    ensures
        spec_duration_secs(n * rate, rate) == n,
{
    vstd::arithmetic::div_mod::lemma_fundamental_div_mod_converse(
        (n * rate + rate / 2) as int,
        rate as int,
        n as int,
        (rate / 2) as int,
    );
}

/// Duration in whole seconds: frames over rate, rounded to nearest.
pub open spec fn spec_duration_secs(frames: nat, rate: nat) -> nat
    recommends
        rate >= 1,
{
    (frames + rate / 2) / rate
}

impl WavClip {
    /// Frames in the clip: one sample per channel each.
    pub fn total_sample_count(&self) -> (r: usize)
        requires
            wav_clip_wf(*self),
        ensures
            r == self.samples@.len() / (self.format.channels as nat),
    {
        self.samples.len() / (self.format.channels as usize)
    }

    /// The clip's duration in whole seconds, rounded to nearest.
    pub fn duration_secs(&self) -> (r: u32)
        requires
            wav_clip_wf(*self),
        ensures
            r == spec_duration_secs(
                self.samples@.len() / (self.format.channels as nat),
                self.format.sample_rate as nat,
            ),
    {
        let frames: u64 = (self.samples.len() / (self.format.channels as usize)) as u64;
        let rate: u64 = self.format.sample_rate as u64;
        proof {
            assert(self.samples@.len() / (self.format.channels as nat) <= self.samples@.len())
                by (nonlinear_arith)
                requires
                    self.format.channels >= 1,
            ;
            assert(self.samples@.len() <= 0xffff_ffff);
            vstd::arithmetic::div_mod::lemma_div_nonincreasing(
                (frames + rate / 2) as int,
                rate as int,
            );
        }
        ((frames + rate / 2) / rate) as u32
    }
}


/// Why a seek was refused.
#[derive(Clone, Copy, Debug, PartialEq, Eq, Structural)]
pub enum SeekError {
    /// The requested frame lies beyond the last frame of the clip.
    SeekOutOfRange,
}

impl WavClip {
    /// The position in the sample words where frame `n` starts.  A
    /// frame beyond the end of the clip is refused before any seek
    /// happens; seeking exactly to the end is allowed and yields the
    /// position one past the last word.
    pub fn seek_to_sample(&self, n: u64) -> (r: Result<usize, SeekError>)
        requires
            wav_clip_wf(*self),
        ensures
            match r {
                Ok(i) => n as nat * (self.format.channels as nat) == i && n as nat
                    <= self.samples@.len() / (self.format.channels as nat),
                Err(e) => e == SeekError::SeekOutOfRange && n as nat > self.samples@.len() / (
                self.format.channels as nat),
            },
    {
        let frames: u64 = (self.samples.len() / (self.format.channels as usize)) as u64;
        if n > frames {
            return Err(SeekError::SeekOutOfRange);
        }
        proof {
            assert(n as int * (self.format.channels as int) <= (self.samples@.len() as int / (
            self.format.channels as int)) * (self.format.channels as int)) by (nonlinear_arith)
                requires
                    n as int <= self.samples@.len() as int / (self.format.channels as int),
                    self.format.channels >= 1,
            ;
            vstd::arithmetic::div_mod::lemma_fundamental_div_mod(
                self.samples@.len() as int,
                self.format.channels as int,
            );
            assert((self.samples@.len() as int / (self.format.channels as int)) * (
            self.format.channels as int) <= self.samples@.len() as int) by (nonlinear_arith)
                requires
                    self.samples@.len() as int == (self.format.channels as int) * (
                    self.samples@.len() as int / (self.format.channels as int)) + (
                    self.samples@.len() as int % (self.format.channels as int)),
                    self.samples@.len() as int % (self.format.channels as int) >= 0,
            ;
        }
        Ok((n as usize) * (self.format.channels as usize))
    }
}

/// Recording for `n` whole seconds and loading the file back gives the
/// same clip with a duration of exactly `n`: the encoded bytes parse to
/// the same metadata and samples, and whole seconds divide out.
pub proof fn lemma_record_then_load(s: WavSpec, samples: Seq<u32>, n: nat)
    requires
        wav_spec_wf(s),
        samples.len() == n * (s.sample_rate as nat) * (s.channels as nat),
        samples.len() * spec_bytes_per(s.bits_per_sample) <= 0xffff_ffff - 36,
        s.bits_per_sample == 16 ==> forall|j: int| 0 <= j < samples.len() ==> samples[j]
            < 0x1_0000,
    ensures
        spec_parse(spec_encode(s, samples)) == Ok::<(WavSpec, Seq<u32>), WavError>((s, samples)),
        spec_duration_secs(samples.len() / (s.channels as nat), s.sample_rate as nat) == n,
{
    let rate = s.sample_rate as int;
    let ch = s.channels as int;
    assert(samples.len() as int == (n as int * rate) * ch);
    assert(samples.len() % (s.channels as nat) == 0) by {
        vstd::arithmetic::div_mod::lemma_mod_multiples_basic(n as int * rate, ch);
    }
    lemma_wav_round_trip(s, samples);
    assert(samples.len() / (s.channels as nat) == n * (s.sample_rate as nat)) by {
        vstd::arithmetic::div_mod::lemma_div_multiples_vanish(n as int * rate, ch);
        assert((n as int * rate) * ch == ch * (n as int * rate)) by (nonlinear_arith);
    }
    lemma_whole_second_duration(n, s.sample_rate as nat);
}

} // verus!
