//! The RIFF/WAVE container: mono, 16-bit linear PCM, little-endian.
//!
//! The container is a 44-byte header followed by two bytes per sample.

use crate::provider::OpenAIWhisperProvider;
use crate::sample::{quantize, quantized};
use vstd::prelude::*;

verus! {

/// Length of the header in bytes.
pub const HEADER_LEN: usize = 44;

/// The two bytes of a 16-bit value, low byte first.
pub open spec fn u16_le(value: nat) -> Seq<u8> {
    seq![(value % 256) as u8, (value / 256 % 256) as u8]
}

/// The four bytes of a 32-bit value, low byte first.
pub open spec fn u32_le(value: nat) -> Seq<u8> {
    seq![
        (value % 256) as u8,
        (value / 0x100 % 256) as u8,
        (value / 0x1_0000 % 256) as u8,
        (value / 0x100_0000 % 256) as u8,
    ]
}

/// The 16-bit two's-complement word of a signed PCM value.
pub open spec fn pcm_word(pcm: int) -> nat {
    if pcm < 0 {
        (pcm + 0x1_0000) as nat
    } else {
        pcm as nat
    }
}

/// ASCII "RIFF".
pub open spec fn riff_tag() -> Seq<u8> {
    seq![0x52u8, 0x49u8, 0x46u8, 0x46u8]
}

/// ASCII "WAVE".
pub open spec fn wave_tag() -> Seq<u8> {
    seq![0x57u8, 0x41u8, 0x56u8, 0x45u8]
}

/// ASCII "fmt ".
pub open spec fn fmt_tag() -> Seq<u8> {
    seq![0x66u8, 0x6du8, 0x74u8, 0x20u8]
}

/// ASCII "data".
pub open spec fn data_tag() -> Seq<u8> {
    seq![0x64u8, 0x61u8, 0x74u8, 0x61u8]
}

/// Whether a container for `sample_count` samples at `sample_rate` can be
/// written: its sizes and its byte rate must fit the 32-bit header fields,
/// and its length must fit a `usize`.
pub open spec fn encodable(sample_count: nat, sample_rate: u32) -> bool {
    &&& 36 + 2 * sample_count <= u32::MAX
    &&& 44 + 2 * sample_count <= usize::MAX
    &&& 2 * sample_rate <= u32::MAX
}

/// The head of the RIFF chunk: the tag, the size of all that follows the
/// size field, and the form type.
pub open spec fn riff_head(sample_count: nat) -> Seq<u8> {
    riff_tag() + u32_le(36 + 2 * sample_count) + wave_tag()
}

/// The format chunk: its tag and size (16), then linear PCM (1), one
/// channel, the sample rate, the byte rate (two bytes per sample), the
/// block alignment (2) and the bits per sample (16).
pub open spec fn format_chunk(sample_rate: u32) -> Seq<u8> {
    fmt_tag() + u32_le(16) + u16_le(1) + u16_le(1) + u32_le(sample_rate as nat) + u32_le(
        2 * sample_rate as nat,
    ) + u16_le(2) + u16_le(16)
}

/// The head of the data chunk: its tag and the size of the data.
pub open spec fn data_head(sample_count: nat) -> Seq<u8> {
    data_tag() + u32_le(2 * sample_count)
}

/// The header of a container that holds `sample_count` samples.
pub open spec fn wav_header(sample_count: nat, sample_rate: u32) -> Seq<u8> {
    riff_head(sample_count) + format_chunk(sample_rate) + data_head(sample_count)
}

/// The data of the container: each sample quantized, low byte first.
pub open spec fn pcm_data(samples: Seq<u32>) -> Seq<u8>
    decreases samples.len(),
{
    if samples.len() == 0 {
        Seq::empty()
    } else {
        pcm_data(samples.drop_last()) + u16_le(pcm_word(quantized(samples.last())))
    }
}

/// The whole container for `samples`, each given as the binary32 bit pattern
/// of its value.
pub open spec fn wav_bytes(samples: Seq<u32>, sample_rate: u32) -> Seq<u8> {
    wav_header(samples.len(), sample_rate) + pcm_data(samples)
}

/// The data holds two bytes for each sample.
pub proof fn lemma_pcm_data_len(samples: Seq<u32>)
    ensures
        pcm_data(samples).len() == 2 * samples.len(),
    decreases samples.len(),
{
    if samples.len() > 0 {
        lemma_pcm_data_len(samples.drop_last());
    }
}

/// A container is 44 bytes longer than its data, which holds two bytes for
/// each sample.
pub proof fn lemma_wav_len(samples: Seq<u32>, sample_rate: u32)
    ensures
        wav_header(samples.len(), sample_rate).len() == 44,
        wav_bytes(samples, sample_rate).len() == 44 + 2 * samples.len(),
{
    lemma_pcm_data_len(samples);
}

/// Every container begins with "RIFF", holds "WAVE" at offset 8 and "data"
/// at offset 36.
pub proof fn lemma_wav_tags(samples: Seq<u32>, sample_rate: u32)
    ensures
        wav_bytes(samples, sample_rate).subrange(0, 4) == riff_tag(),
        wav_bytes(samples, sample_rate).subrange(8, 12) == wave_tag(),
        wav_bytes(samples, sample_rate).subrange(36, 40) == data_tag(),
{
    lemma_wav_len(samples, sample_rate);
    let wav = wav_bytes(samples, sample_rate);
    assert(wav.subrange(0, 4) =~= riff_tag());
    assert(wav.subrange(8, 12) =~= wave_tag());
    assert(wav.subrange(36, 40) =~= data_tag());
}

/// The container is a function of the samples and the rate alone: equal
/// inputs give byte-identical containers.
pub proof fn lemma_wav_deterministic(
    first: Seq<u32>,
    first_rate: u32,
    second: Seq<u32>,
    second_rate: u32,
)
    requires
        first =~= second,
        first_rate == second_rate,
    ensures
        wav_bytes(first, first_rate) == wav_bytes(second, second_rate),
{
}

/// The sample at `index` occupies the two bytes at offset `44 + 2 * index`.
pub proof fn lemma_wav_sample(samples: Seq<u32>, sample_rate: u32, index: int)
    requires
        0 <= index < samples.len(),
    ensures
        wav_bytes(samples, sample_rate).subrange(44 + 2 * index, 46 + 2 * index) == u16_le(
            pcm_word(quantized(samples[index])),
        ),
    decreases samples.len(),
{
    lemma_wav_len(samples, sample_rate);
    lemma_pcm_data_len(samples.drop_last());
    let wav = wav_bytes(samples, sample_rate);
    let word = u16_le(pcm_word(quantized(samples[index])));
    if index == samples.len() - 1 {
        assert(wav.subrange(44 + 2 * index, 46 + 2 * index) =~= word);
    } else {
        lemma_wav_sample(samples.drop_last(), sample_rate, index);
        lemma_wav_len(samples.drop_last(), sample_rate);
        let shorter = wav_bytes(samples.drop_last(), sample_rate);
        assert(shorter.subrange(44 + 2 * index, 46 + 2 * index) =~= wav.subrange(
            44 + 2 * index,
            46 + 2 * index,
        ));
    }
}

/// Appends four bytes.
fn push_tag(out: &mut Vec<u8>, tag: [u8; 4])
    ensures
        final(out)@ == old(out)@ + tag@,
{
    out.push(tag[0]);
    out.push(tag[1]);
    out.push(tag[2]);
    out.push(tag[3]);
    assert(out@ =~= old(out)@ + tag@);
}

/// Appends a 16-bit value, low byte first.
fn push_u16_le(out: &mut Vec<u8>, value: u16)
    ensures
        final(out)@ == old(out)@ + u16_le(value as nat),
{
    out.push((value % 256) as u8);
    out.push((value / 256) as u8);
    assert(out@ =~= old(out)@ + u16_le(value as nat));
}

/// Appends a 32-bit value, low byte first.
fn push_u32_le(out: &mut Vec<u8>, value: u32)
    ensures
        final(out)@ == old(out)@ + u32_le(value as nat),
{
    out.push((value % 256) as u8);
    out.push((value / 0x100 % 256) as u8);
    out.push((value / 0x1_0000 % 256) as u8);
    out.push((value / 0x100_0000) as u8);
    assert(out@ =~= old(out)@ + u32_le(value as nat));
}

/// Whether a container for `sample_count` samples at `sample_rate` can be
/// written.
pub fn can_encode(sample_count: usize, sample_rate: u32) -> (fits: bool)
    ensures
        fits == encodable(sample_count as nat, sample_rate),
{
    let most: u64 = (u32::MAX as u64 - 36) / 2;
    sample_rate <= u32::MAX / 2 && sample_count <= (usize::MAX - HEADER_LEN) / 2
        && sample_count as u64 <= most
}

impl OpenAIWhisperProvider {
    /// Encodes `samples`, each the binary32 bit pattern of a sample value,
    /// as a mono 16-bit PCM WAV container that declares `sample_rate`.
    pub fn samples_to_wav(samples: &[u32], sample_rate: u32) -> (wav: Vec<u8>)
        requires
            encodable(samples@.len(), sample_rate),
        ensures
            wav@ == wav_bytes(samples@, sample_rate),
            wav@.len() == 44 + 2 * samples@.len(),
            wav@.subrange(0, 4) == riff_tag(),
            wav@.subrange(8, 12) == wave_tag(),
            wav@.subrange(36, 40) == data_tag(),
    {
        let count: usize = samples.len();
        let data_size: u32 = (count * 2) as u32;
        let mut wav: Vec<u8> = Vec::with_capacity(HEADER_LEN + count * 2);
        push_tag(&mut wav, [0x52u8, 0x49u8, 0x46u8, 0x46u8]);
        push_u32_le(&mut wav, 36 + data_size);
        push_tag(&mut wav, [0x57u8, 0x41u8, 0x56u8, 0x45u8]);
        push_tag(&mut wav, [0x66u8, 0x6du8, 0x74u8, 0x20u8]);
        push_u32_le(&mut wav, 16);
        push_u16_le(&mut wav, 1);
        push_u16_le(&mut wav, 1);
        push_u32_le(&mut wav, sample_rate);
        push_u32_le(&mut wav, sample_rate * 2);
        push_u16_le(&mut wav, 2);
        push_u16_le(&mut wav, 16);
        push_tag(&mut wav, [0x64u8, 0x61u8, 0x74u8, 0x61u8]);
        push_u32_le(&mut wav, data_size);
        assert(wav@ =~= wav_header(count as nat, sample_rate));
        assert(samples@.subrange(0, 0) =~= Seq::<u32>::empty());
        let mut done: usize = 0;
        while done < count
            invariant
                done <= count,
                count == samples@.len(),
                wav@ == wav_header(count as nat, sample_rate) + pcm_data(
                    samples@.subrange(0, done as int),
                ),
            decreases count - done,
        {
            let pcm: i16 = quantize(samples[done]);
            let word: u16 = if pcm < 0 {
                (pcm as i32 + 0x1_0000) as u16
            } else {
                pcm as u16
            };
            push_u16_le(&mut wav, word);
            proof {
                let before = samples@.subrange(0, done as int);
                let after = samples@.subrange(0, done + 1);
                assert(after.drop_last() =~= before);
                assert(after.last() == samples@[done as int]);
                assert(wav@ =~= wav_header(count as nat, sample_rate) + pcm_data(after));
            }
            done += 1;
        }
        proof {
            assert(samples@.subrange(0, count as int) =~= samples@);
            lemma_wav_len(samples@, sample_rate);
            lemma_wav_tags(samples@, sample_rate);
        }
        wav
    }
}

} // verus!
