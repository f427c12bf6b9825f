//! The output container: stereo, 32-bit floating-point WAVE.
//!
//! The two channels are interleaved frame by frame, left sample first, and
//! handed to the `hound` crate, which writes the header and the data chunk
//! into memory.

use vstd::prelude::*;
use crate::config::RenderConfig;
use crate::engine::SampleBuffers;
use crate::error::RenderError;

verus! {

/// `hound::Error`: only its presence is looked at.
#[verifier::external_type_specification]
#[verifier::external_body]
pub struct ExWavError(hound::Error);

/// The number of channels of the output.
pub const CHANNELS: u16 = 2;

/// The width of one sample, in bits.
pub const BITS_PER_SAMPLE: u16 = 32;

/// The length of the header that precedes the samples, in bytes.
pub const HEADER_BYTES: usize = 68;

/// The most frames that one container holds: its size fields are 32 bits
/// wide and count bytes.
pub const MAX_FRAMES: usize = 536_870_904;

/// The highest sample rate whose byte rate still fits the header's 32 bits.
pub const MAX_RATE: i32 = 536_870_911;

/// The header that `hound::WavWriter` writes for a float container of the
/// given channel count and sample rate that holds `samples` samples.
pub uninterp spec fn wav_header(channels: u16, sample_rate: u32, samples: nat) -> Seq<u8>;

/// The unsigned 16-bit number that `bytes` holds at offset `at`, low byte
/// first.
pub open spec fn u16_at(bytes: Seq<u8>, at: int) -> nat
    recommends
        0 <= at && at + 2 <= bytes.len(),
{
    bytes[at] as nat + 256 * (bytes[at + 1] as nat)
}

/// The unsigned 32-bit number that `bytes` holds at offset `at`, low byte
/// first.
pub open spec fn u32_at(bytes: Seq<u8>, at: int) -> nat
    recommends
        0 <= at && at + 4 <= bytes.len(),
{
    bytes[at] as nat + 256 * (bytes[at + 1] as nat) + 65536 * (bytes[at + 2] as nat) + 16777216 * (
    bytes[at + 3] as nat)
}

/// Where the header holds its format tag.
pub const FORMAT_TAG_AT: usize = 20;

/// The format tag of an extensible header, which names the sample format
/// in a sub-format field.
pub const FORMAT_EXTENSIBLE: u16 = 0xFFFE;

/// Where the header holds the number of channels.
pub const CHANNELS_AT: usize = 22;

/// Where the header holds the width of a stored sample, in bits.
pub const CONTAINER_BITS_AT: usize = 34;

/// Where the header holds the number of bits of a sample that count.
pub const VALID_BITS_AT: usize = 38;

/// Where the header's sub-format field starts; its first two bytes are the
/// sample format's code.
pub const SUB_FORMAT_AT: usize = 44;

/// The sub-format code of IEEE floating-point samples.
pub const FORMAT_IEEE_FLOAT: u16 = 3;

/// Where the header holds the sample rate.
pub const SAMPLE_RATE_AT: usize = 24;

/// Where the header holds the length of the data chunk, in bytes.
pub const DATA_LENGTH_AT: usize = 64;

/// Whether the header at the start of `bytes` announces 32-bit
/// floating-point samples, this channel count, this sample rate and this
/// many samples of four bytes.
pub open spec fn announces(bytes: Seq<u8>, channels: u16, sample_rate: u32, samples: nat) -> bool {
    &&& u16_at(bytes, FORMAT_TAG_AT as int) == FORMAT_EXTENSIBLE
    &&& u16_at(bytes, CONTAINER_BITS_AT as int) == BITS_PER_SAMPLE
    &&& u16_at(bytes, VALID_BITS_AT as int) == BITS_PER_SAMPLE
    &&& u16_at(bytes, SUB_FORMAT_AT as int) == FORMAT_IEEE_FLOAT
    &&& u16_at(bytes, CHANNELS_AT as int) == channels
    &&& u32_at(bytes, SAMPLE_RATE_AT as int) == sample_rate
    &&& u32_at(bytes, DATA_LENGTH_AT as int) == 4 * samples
}

/// Byte `k` of a sample in little-endian order.
pub open spec fn sample_byte(sample: u32, k: int) -> u8 {
    if k == 0 {
        (sample % 256) as u8
    } else if k == 1 {
        (sample / 256 % 256) as u8
    } else if k == 2 {
        (sample / 65536 % 256) as u8
    } else {
        (sample / 16777216) as u8
    }
}

/// The data chunk for a run of samples: four little-endian bytes each.
pub open spec fn payload(samples: Seq<u32>) -> Seq<u8> {
    Seq::new(4 * samples.len(), |i: int| sample_byte(samples[i / 4], i % 4))
}

/// Two channels woven into one run of samples: frame by frame, the left
/// sample and then the right one.
pub open spec fn interleaved(left: Seq<u32>, right: Seq<u32>) -> Seq<u32>
    recommends
        left.len() == right.len(),
{
    Seq::new(
        2 * left.len(),
        |i: int|
            if i % 2 == 0 {
                left[i / 2]
            } else {
                right[i / 2]
            },
    )
}

/// Whether `bytes` is the container for the given sample rate and run of
/// samples: the header, then the data chunk, and nothing else.
pub open spec fn is_container(bytes: Seq<u8>, sample_rate: u32, samples: Seq<u32>) -> bool {
    &&& bytes.len() == HEADER_BYTES + 4 * samples.len()
    &&& announces(bytes, CHANNELS, sample_rate, samples.len())
    &&& bytes.subrange(0, HEADER_BYTES as int) == wav_header(CHANNELS, sample_rate, samples.len())
    &&& bytes.subrange(HEADER_BYTES as int, bytes.len() as int) == payload(samples)
}

/// Whether a container can be made for this rate and this many frames.
pub open spec fn container_fits(rate: int, frames: nat) -> bool {
    0 < rate <= MAX_RATE && frames <= MAX_FRAMES
}

/// Writes a complete WAVE file into memory with `hound::WavWriter`: `new`
/// over an in-memory cursor with a float `hound::WavSpec`, `write_sample`
/// for each sample in order, `finalize`. The writer borrows the buffer that
/// it fills, so the whole exchange is one call. A sample goes in as a 32-bit
/// integer of the same bits, which hound writes as the same four bytes.
/// Trusted: on success the bytes are a 68-byte header, which [`wav_header`]
/// names, followed by each sample as four little-endian bytes; the header
/// holds the extensible format tag at offset 20, the channel count at 22,
/// the sample rate at 24, the sample width 32 at 34 and at 38, the code of
/// the float sub-format at 44 and the byte length of the samples at 64, each
/// low byte first. Trusted too: a whole number of frames is always written.
/// The writer fails only where a write into the growing buffer fails, which
/// it does not, or where the last frame is short. The preconditions keep
/// hound's 32-bit size arithmetic from overflowing and its divisions away
/// from zero.
#[verifier::external_body]
fn write_container(channels: u16, sample_rate: u32, bits_per_sample: u16, samples: &Vec<u32>) -> (written: Result<Vec<u8>, hound::Error>)
    requires
        bits_per_sample == 32,
        1 <= channels <= 2,
        1 <= sample_rate,
        sample_rate * 4 * channels <= u32::MAX,
        samples@.len() * 4 + 60 <= u32::MAX,
    ensures
        samples@.len() % (channels as nat) == 0 ==> written is Ok,
        written is Ok ==> {
            let bytes = written->Ok_0@;
            &&& bytes.len() == HEADER_BYTES + 4 * samples@.len()
            &&& announces(bytes, channels, sample_rate, samples@.len())
            &&& bytes.subrange(0, HEADER_BYTES as int) == wav_header(channels, sample_rate, samples@.len())
            &&& bytes.subrange(HEADER_BYTES as int, bytes.len() as int) == payload(samples@)
        },
{
    let spec = hound::WavSpec { channels, sample_rate, bits_per_sample, sample_format: hound::SampleFormat::Float };
    let mut cursor = std::io::Cursor::new(Vec::new());
    let mut writer = hound::WavWriter::new(&mut cursor, spec)?;
    for sample in samples.iter() {
        writer.write_sample(*sample as i32)?;
    }
    writer.finalize()?;
    Ok(cursor.into_inner())
}

/// Weaves the two channels into one run of samples.
pub fn interleave(buffers: &SampleBuffers) -> (samples: Vec<u32>)
    ensures
        samples@ == interleaved(buffers.left_samples(), buffers.right_samples()),
{
    let frames: usize = buffers.frames();
    let left = buffers.left();
    let right = buffers.right();
    let mut samples: Vec<u32> = Vec::new();
    let mut i: usize = 0;
    while i < frames
        invariant
            i <= frames,
            left@.len() == frames,
            right@.len() == frames,
            samples@.len() == 2 * i,
            forall|j: int| 0 <= j < 2 * i ==> #[trigger] samples@[j] == (if j % 2 == 0 { left@[j / 2] } else { right@[j / 2] }),
        decreases frames - i,
    {
        samples.push(left[i]);
        samples.push(right[i]);
        i = i + 1;
    }
    assert(samples@ =~= interleaved(left@, right@));
    samples
}

/// What encoding gives for each outcome of the writer.
pub fn container_from(written: Result<Vec<u8>, hound::Error>) -> (container: Result<Vec<u8>, RenderError>)
    ensures
        written is Ok ==> container == Ok::<Vec<u8>, RenderError>(written->Ok_0),
        written is Err ==> container == Err::<Vec<u8>, RenderError>(RenderError::OutputError),
{
    match written {
        Ok(bytes) => Ok(bytes),
        Err(_) => Err(RenderError::OutputError),
    }
}

/// Encodes the two channels as a stereo float container at the configured
/// sample rate.
///
/// Fails with [`RenderError::OutputError`] exactly where the container
/// cannot hold the frames or express the rate.
pub fn encode(config: &RenderConfig, buffers: &SampleBuffers) -> (container: Result<Vec<u8>, RenderError>)
    ensures
        container is Ok == container_fits(config.rate(), buffers.left_samples().len()),
        container is Err ==> container.err() == Some(RenderError::OutputError),
        container is Ok ==> is_container(
            container->Ok_0@,
            config.rate() as u32,
            interleaved(buffers.left_samples(), buffers.right_samples()),
        ),
{
    let rate: i32 = config.sample_rate();
    if rate > MAX_RATE || buffers.frames() > MAX_FRAMES {
        return Err(RenderError::OutputError);
    }
    let samples = interleave(buffers);
    container_from(write_container(CHANNELS, rate as u32, BITS_PER_SAMPLE, &samples))
}

} // verus!
