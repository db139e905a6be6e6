//! Checks that the bundled impulse responses go through before their samples
//! are read: the WAV header (read with `hound`), the channel layout and
//! sample format that can be decoded, and the split of interleaved samples
//! into the two channels of an impulse response.

use vstd::prelude::*;
use crate::ir::StereoIr;

verus! {

/// Whether samples are stored as IEEE floats or as integers.
#[derive(Clone, Copy, Debug, PartialEq, Eq, Structural)]
pub enum SampleKind {
    Float,
    Int,
}

/// The format information of a WAV stream.
#[derive(Clone, Copy, Debug, PartialEq, Eq, Structural)]
pub struct WavHeader {
    pub channels: u16,
    pub sample_rate: u32,
    pub bits_per_sample: u16,
    pub sample_format: SampleKind,
}

/// How the samples of an accepted WAV stream are turned into levels.
#[derive(Clone, Copy, Debug, PartialEq, Eq, Structural)]
pub enum SampleDecoding {
    /// Samples are 32-bit floats, taken as they are.
    Float32,
    /// Samples are integers, divided by the largest positive value of their width.
    Int { max_amplitude: i64 },
}

#[verifier::external_type_specification]
#[verifier::external_body]
pub struct ExHoundError(hound::Error);

/// Why a bundled impulse response could not be decoded.
#[derive(Debug)]
pub enum IrDecodeError {
    /// The bytes are not a WAV stream that `hound` can open.
    Open(hound::Error),
    /// Only mono and stereo streams are used.
    UnsupportedChannelCount(u16),
    /// Neither 32-bit float nor integer samples of at most 32 bits.
    UnsupportedFormat { sample_format: SampleKind, bits_per_sample: u16 },
    /// The stream holds no complete frame.
    NoSamples,
}

/// The header that `hound::WavReader::new` reads from `bytes`, or `None` when
/// it refuses them.
pub uninterp spec fn wav_header_of(bytes: Seq<u8>) -> Option<WavHeader>;

/// Opens `bytes` with `hound::WavReader::new` and returns the stream's
/// `spec()`, converted field by field. Trusted: the result is the header
/// named by `wav_header_of`, and (as hound's reader refuses a zero channel
/// count and zero bits per sample) an accepted header has at least one
/// channel and one bit per sample. Which error comes back is not stated.
#[verifier::external_body]
fn read_wav_header(bytes: &[u8]) -> (r: Result<WavHeader, hound::Error>)
    ensures
        r is Ok <==> wav_header_of(bytes@) is Some,
        r matches Ok(h) ==> wav_header_of(bytes@) == Some(h) && h.channels >= 1 && h.bits_per_sample >= 1,
{
    let spec = hound::WavReader::new(std::io::Cursor::new(bytes))?.spec();
    let sample_format = match spec.sample_format {
        hound::SampleFormat::Float => SampleKind::Float,
        hound::SampleFormat::Int => SampleKind::Int,
    };
    Ok(WavHeader {
        channels: spec.channels,
        sample_rate: spec.sample_rate,
        bits_per_sample: spec.bits_per_sample,
        sample_format,
    })
}

/// Whether a channel count is one the impulse responses may have.
pub open spec fn channels_supported(channels: u16) -> bool {
    1 <= channels <= 2
}

/// The decoding that a header calls for, or why it is refused; the channel
/// count is checked first.
pub open spec fn decoding_of(h: WavHeader) -> Option<SampleDecoding> {
    if !channels_supported(h.channels) {
        None
    } else if h.sample_format == SampleKind::Float && h.bits_per_sample == 32 {
        Some(SampleDecoding::Float32)
    } else if h.sample_format == SampleKind::Int && h.bits_per_sample <= 32 {
        Some(SampleDecoding::Int { max_amplitude: (vstd::arithmetic::power2::pow2((h.bits_per_sample - 1) as nat) - 1) as i64 })
    } else {
        None
    }
}

/// The refusal that goes with a header that `decoding_of` refuses.
pub open spec fn refusal_matches(h: WavHeader, e: IrDecodeError) -> bool {
    if !channels_supported(h.channels) {
        e == IrDecodeError::UnsupportedChannelCount(h.channels)
    } else {
        e == (IrDecodeError::UnsupportedFormat {
            sample_format: h.sample_format,
            bits_per_sample: h.bits_per_sample,
        })
    }
}

/// Decides how the samples of a stream with header `header` are decoded: mono
/// or stereo only, then 32-bit float samples or integer samples of at most 32
/// bits.
pub fn classify_wav(header: &WavHeader) -> (r: Result<SampleDecoding, IrDecodeError>)
    requires
        header.sample_format == SampleKind::Int && channels_supported(header.channels)
            && header.bits_per_sample <= 32 ==> header.bits_per_sample >= 1,
    ensures
        r matches Ok(d) ==> decoding_of(*header) == Some(d),
        r matches Err(e) ==> decoding_of(*header) is None && refusal_matches(*header, e),
        r is Ok <==> decoding_of(*header) is Some,
{
    if header.channels == 0 || header.channels > 2 {
        return Err(IrDecodeError::UnsupportedChannelCount(header.channels));
    }
    match header.sample_format {
        SampleKind::Float => {
            if header.bits_per_sample == 32 {
                Ok(SampleDecoding::Float32)
            } else {
                Err(IrDecodeError::UnsupportedFormat {
                    sample_format: header.sample_format,
                    bits_per_sample: header.bits_per_sample,
                })
            }
        },
        SampleKind::Int => {
            if header.bits_per_sample <= 32 {
                let shift: u64 = (header.bits_per_sample - 1) as u64;
                proof {
                    vstd::bits::lemma_u64_pow2_no_overflow(shift as nat);
                    vstd::bits::lemma_u64_shl_is_mul(1, shift);
                    lemma_pow2_at_most_31(shift as nat);
                }
                let top: u64 = 1u64 << shift;
                Ok(SampleDecoding::Int { max_amplitude: top as i64 - 1 })
            } else {
                Err(IrDecodeError::UnsupportedFormat {
                    sample_format: header.sample_format,
                    bits_per_sample: header.bits_per_sample,
                })
            }
        },
    }
}

proof fn lemma_pow2_at_most_31(n: nat)
    requires
        n <= 31,
    ensures
        vstd::arithmetic::power2::pow2(n) <= 0x8000_0000,
{
    vstd::arithmetic::power2::lemma2_to64();
    if n < 31 {
        vstd::arithmetic::power2::lemma_pow2_strictly_increases(n, 31);
    }
}

/// Integer samples are scaled by the largest positive value of their width:
/// one less than half of two to the number of bits. Float streams must have
/// 32-bit samples; mono and stereo only.
pub proof fn lemma_decoding_scale(h: WavHeader)
    requires
        channels_supported(h.channels),
        h.sample_format == SampleKind::Int,
        1 <= h.bits_per_sample <= 32,
    ensures
        decoding_of(h) matches Some(SampleDecoding::Int { max_amplitude }) && 2 * (max_amplitude + 1)
            == vstd::arithmetic::power2::pow2(h.bits_per_sample as nat),
        h.bits_per_sample == 8 ==> decoding_of(h) == Some(SampleDecoding::Int { max_amplitude: 127 }),
        h.bits_per_sample == 16 ==> decoding_of(h) == Some(SampleDecoding::Int { max_amplitude: 32767 }),
        h.bits_per_sample == 24 ==> decoding_of(h) == Some(SampleDecoding::Int { max_amplitude: 8388607 }),
        h.bits_per_sample == 32 ==> decoding_of(h) == Some(SampleDecoding::Int { max_amplitude: 2147483647 }),
{
    let b = h.bits_per_sample as nat;
    vstd::arithmetic::power2::lemma2_to64();
    vstd::arithmetic::power2::lemma_pow2_unfold(b);
    lemma_pow2_at_most_31((b - 1) as nat);
}

/// What is accepted: mono or stereo, with 32-bit float or integer samples of
/// at most 32 bits; everything else is refused, the channel count first.
pub proof fn lemma_decoding_accepts(h: WavHeader)
    ensures
        decoding_of(h) is Some <==> channels_supported(h.channels) && ((h.sample_format == SampleKind::Float
            && h.bits_per_sample == 32) || (h.sample_format == SampleKind::Int && h.bits_per_sample <= 32)),
        h.channels == 0 || h.channels > 2 ==> decoding_of(h) is None,
        channels_supported(h.channels) && h.sample_format == SampleKind::Float && h.bits_per_sample == 32
            ==> decoding_of(h) == Some(SampleDecoding::Float32),
{
}

/// Opens a bundled WAV stream and decides how its samples are decoded.
pub fn probe_wav(bytes: &[u8]) -> (r: Result<(WavHeader, SampleDecoding), IrDecodeError>)
    ensures
        wav_header_of(bytes@) is None ==> r matches Err(IrDecodeError::Open(_)),
        wav_header_of(bytes@) matches Some(h) ==> {
            &&& r matches Ok((h2, d)) ==> h2 == h && decoding_of(h) == Some(d)
            &&& r matches Err(e) ==> decoding_of(h) is None && refusal_matches(h, e)
            &&& r is Ok <==> decoding_of(h) is Some
        },
{
    let header = match read_wav_header(bytes) {
        Ok(h) => h,
        Err(e) => return Err(IrDecodeError::Open(e)),
    };
    let decoding = classify_wav(&header)?;
    Ok((header, decoding))
}

/// Left channel of interleaved samples: all of them for mono, every other
/// one from the first for stereo (whole frames only).
pub open spec fn left_channel<T>(samples: Seq<T>, channels: u16) -> Seq<T> {
    if channels == 1 {
        samples
    } else {
        Seq::new(samples.len() / 2, |i: int| samples[2 * i])
    }
}

/// Right channel of interleaved samples: all of them for mono, every other
/// one from the second for stereo (whole frames only).
pub open spec fn right_channel<T>(samples: Seq<T>, channels: u16) -> Seq<T> {
    if channels == 1 {
        samples
    } else {
        Seq::new(samples.len() / 2, |i: int| samples[2 * i + 1])
    }
}

/// Splits the interleaved samples of a mono or stereo stream into the two
/// channels of an impulse response (a mono stream feeds both); a stream
/// without a whole frame is refused.
pub fn assemble_ir<T: Copy>(header: &WavHeader, interleaved: &Vec<T>) -> (r: Result<StereoIr<T>, IrDecodeError>)
    requires
        channels_supported(header.channels),
    ensures
        r matches Ok(ir) ==> {
            &&& ir.sample_rate == header.sample_rate
            &&& ir.left@ == left_channel(interleaved@, header.channels)
            &&& ir.right@ == right_channel(interleaved@, header.channels)
            &&& header.channels == 1 ==> ir.left@ == interleaved@ && ir.right@ == interleaved@
            &&& header.channels == 2 ==> ir.left@.len() == interleaved@.len() / 2 && ir.right@.len()
                == interleaved@.len() / 2 && forall|i: int|
                0 <= i < ir.left@.len() ==> #[trigger] ir.left@[i] == interleaved@[2 * i] && ir.right@[i]
                    == interleaved@[2 * i + 1]
        },
        header.channels == 1 ==> (r is Err <==> interleaved@.len() == 0),
        header.channels == 2 ==> (r is Err <==> interleaved@.len() < 2),
        r matches Err(e) ==> e == IrDecodeError::NoSamples,
        r is Err <==> left_channel(interleaved@, header.channels).len() == 0,
{
    let mut left: Vec<T> = Vec::new();
    let mut right: Vec<T> = Vec::new();
    let n = interleaved.len();
    if header.channels == 1 {
        let mut i: usize = 0;
        while i < n
            invariant
                n == interleaved@.len(),
                i <= n,
                left@ == interleaved@.take(i as int),
                right@ == interleaved@.take(i as int),
            decreases n - i,
        {
            let x = interleaved[i];
            left.push(x);
            right.push(x);
            assert(interleaved@.take(i + 1) == interleaved@.take(i as int).push(x));
            i = i + 1;
        }
        assert(interleaved@.take(n as int) == interleaved@);
    } else {
        let frames = n / 2;
        let mut f: usize = 0;
        while f < frames
            invariant
                n == interleaved@.len(),
                frames == n / 2,
                f <= frames,
                left@ == Seq::new(f as nat, |i: int| interleaved@[2 * i]),
                right@ == Seq::new(f as nat, |i: int| interleaved@[2 * i + 1]),
            decreases frames - f,
        {
            let a = interleaved[2 * f];
            let b = interleaved[2 * f + 1];
            left.push(a);
            right.push(b);
            assert(left@ =~= Seq::new((f + 1) as nat, |i: int| interleaved@[2 * i]));
            assert(right@ =~= Seq::new((f + 1) as nat, |i: int| interleaved@[2 * i + 1]));
            f = f + 1;
        }
    }
    if left.len() == 0 {
        return Err(IrDecodeError::NoSamples);
    }
    Ok(StereoIr { sample_rate: header.sample_rate, left, right })
}

} // verus!
