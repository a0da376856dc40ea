//! Audio as WAVE files.

use vstd::prelude::*;
use crate::error::Qwen3TtsError;
#[allow(unused_imports)]
use crate::error::ErrorModel;

verus! {

/// The number of channels of a synthesis.
pub const CHANNELS: u16 = 1;

/// The number of bits of a sample.
pub const BITS_PER_SAMPLE: u16 = 16;

/// The errors of the `hound` crate.
#[verifier::external_type_specification]
#[verifier::external_body]
pub struct ExHoundError(hound::Error);

/// A number in two bytes, least significant first.
pub open spec fn le16(n: int) -> Seq<u8> {
    seq![(n % 0x100) as u8, ((n / 0x100) % 0x100) as u8]
}

/// A number in four bytes, least significant first.
pub open spec fn le32(n: int) -> Seq<u8> {
    le16(n % 0x1_0000) + le16(n / 0x1_0000)
}

/// A sample in two bytes, in two's complement.
pub open spec fn sample_bytes(sample: i16) -> Seq<u8> {
    le16(
        if sample < 0 {
            sample + 0x1_0000
        } else {
            sample as int
        },
    )
}

/// Some samples, one behind the other.
pub open spec fn data_bytes(samples: Seq<i16>) -> Seq<u8>
    decreases samples.len(),
{
    if samples.len() == 0 {
        Seq::empty()
    } else {
        data_bytes(samples.drop_last()) + sample_bytes(samples.last())
    }
}

/// The WAVE file of 16-bit samples: a `RIFF` header, a `fmt ` chunk and a `data` chunk.
pub open spec fn wav_bytes(channels: int, sample_rate: int, samples: Seq<i16>) -> Seq<u8> {
    seq![0x52u8, 0x49u8, 0x46u8, 0x46u8] + le32(36 + 2 * samples.len() as int) + seq![
        0x57u8,
        0x41u8,
        0x56u8,
        0x45u8,
    ] + seq![0x66u8, 0x6du8, 0x74u8, 0x20u8] + le32(16) + le16(1) + le16(channels) + le32(
        sample_rate,
    ) + le32(sample_rate * 2 * channels) + le16(2 * channels) + le16(16) + seq![
        0x64u8,
        0x61u8,
        0x74u8,
        0x61u8,
    ] + le32(2 * samples.len() as int) + data_bytes(samples)
}

/// Writes 16-bit integer samples to memory with [`hound::WavWriter`]: `new`, `write_sample` for
/// each sample in turn, and `finalize`. What is claimed: it succeeds where the samples fill the
/// channels evenly and only there, since writing to memory does not fail; and the bytes written are
/// then those of [`wav_bytes`], as the crate's source lays a file with up to two channels out.
#[verifier::external_body]
fn write_wav(channels: u16, sample_rate: u32, bits_per_sample: u16, samples: &Vec<i16>) -> (r:
    Result<Vec<u8>, hound::Error>)
    requires
        1 <= channels <= 2,
        bits_per_sample == 16,
        sample_rate > 0,
        sample_rate * 2 * channels <= u32::MAX,
        36 + 2 * samples@.len() <= u32::MAX,
    ensures
        r is Ok <==> samples@.len() % (channels as nat) == 0,
        r matches Ok(bytes) ==> bytes@ == wav_bytes(channels as int, sample_rate as int, samples@),
{
    let sample_format = hound::SampleFormat::Int;
    let spec = hound::WavSpec { channels, sample_rate, bits_per_sample, sample_format };
    let mut cursor = std::io::Cursor::new(Vec::new());
    let mut writer = hound::WavWriter::new(&mut cursor, spec)?;
    for sample in samples {
        writer.write_sample(*sample)?;
    }
    writer.finalize()?;
    Ok(cursor.into_inner())
}

/// What is handed out of what writing a file came to.
pub fn written_wav(written: Result<Vec<u8>, hound::Error>) -> (r: Result<Vec<u8>, Qwen3TtsError>)
    ensures
        match (written, r) {
            (Ok(bytes), Ok(file)) => file == bytes,
            (Err(_), Err(e)) => e@ == ErrorModel::InvalidInput("failed to write WAV"@),
            _ => false,
        },
{
    match written {
        Ok(bytes) => Ok(bytes),
        Err(_) => Err(Qwen3TtsError::InvalidInput("failed to write WAV".to_string())),
    }
}

/// Whether a file can hold some samples at a sample rate: its header counts bytes, and bytes per
/// second, in 32 bits.
pub open spec fn wav_holds(sample_rate_hz: u32, samples: nat) -> bool {
    sample_rate_hz > 0 && sample_rate_hz * 2 <= u32::MAX && 36 + 2 * samples <= u32::MAX
}

/// Whether a file can hold some samples at a sample rate.
pub fn wav_fits(sample_rate_hz: u32, samples: usize) -> (r: bool)
    ensures
        r == wav_holds(sample_rate_hz, samples as nat),
{
    sample_rate_hz > 0 && sample_rate_hz <= 0x7fff_ffff && samples as u64 <= 0x7fff_ffed
}

/// The WAVE file of the samples of a synthesis.
pub fn encode_wav(sample_rate_hz: u32, samples: &Vec<i16>) -> (r: Result<Vec<u8>, Qwen3TtsError>)
    requires
        wav_holds(sample_rate_hz, samples@.len()),
    ensures
        r matches Ok(bytes) && bytes@ == wav_bytes(1, sample_rate_hz as int, samples@),
{
    written_wav(write_wav(CHANNELS, sample_rate_hz, BITS_PER_SAMPLE, samples))
}

/// A file is 44 bytes longer than its samples, and says how long it is.
pub proof fn lemma_wav_len(sample_rate_hz: u32, samples: Seq<i16>)
    ensures
        wav_bytes(1, sample_rate_hz as int, samples).len() == 44 + 2 * samples.len(),
        wav_bytes(1, sample_rate_hz as int, samples).subrange(4, 8) == le32(
            wav_bytes(1, sample_rate_hz as int, samples).len() - 8,
        ),
{
    lemma_data_len(samples);
    let bytes = wav_bytes(1, sample_rate_hz as int, samples);
    assert(bytes.subrange(4, 8) =~= le32(36 + 2 * samples.len() as int));
}

proof fn lemma_data_len(samples: Seq<i16>)
    ensures
        data_bytes(samples).len() == 2 * samples.len(),
    decreases samples.len(),
{
    if samples.len() > 0 {
        lemma_data_len(samples.drop_last());
    }
}

/// The samples can be read off a file: sample `i` is in the two bytes at `44 + 2 * i`.
pub proof fn lemma_wav_samples(sample_rate_hz: u32, samples: Seq<i16>, i: int)
    requires
        0 <= i < samples.len(),
    ensures
        wav_bytes(1, sample_rate_hz as int, samples).subrange(44 + 2 * i, 46 + 2 * i)
            == sample_bytes(samples[i]),
{
    lemma_data_len(samples);
    lemma_data_at(samples, i);
    let bytes = wav_bytes(1, sample_rate_hz as int, samples);
    let head = bytes.len() - data_bytes(samples).len();
    lemma_wav_len(sample_rate_hz, samples);
    assert(bytes.skip(head) =~= data_bytes(samples));
    assert(bytes.subrange(44 + 2 * i, 46 + 2 * i) =~= data_bytes(samples).subrange(
        2 * i,
        2 * i + 2,
    ));
}

proof fn lemma_data_at(samples: Seq<i16>, i: int)
    requires
        0 <= i < samples.len(),
    ensures
        data_bytes(samples).len() == 2 * samples.len(),
        data_bytes(samples).subrange(2 * i, 2 * i + 2) == sample_bytes(samples[i]),
    decreases samples.len(),
{
    let rest = samples.drop_last();
    lemma_data_len(samples);
    lemma_data_len(rest);
    if i == samples.len() - 1 {
        assert(data_bytes(samples).subrange(2 * i, 2 * i + 2) =~= sample_bytes(samples.last()));
    } else {
        lemma_data_at(rest, i);
        assert(data_bytes(samples).subrange(2 * i, 2 * i + 2) =~= data_bytes(rest).subrange(
            2 * i,
            2 * i + 2,
        ));
    }
}

/// Different samples make different files.
pub proof fn lemma_wav_keeps_samples(sample_rate_hz: u32, a: Seq<i16>, b: Seq<i16>)
    requires
        wav_bytes(1, sample_rate_hz as int, a) == wav_bytes(1, sample_rate_hz as int, b),
    ensures
        a == b,
{
    lemma_wav_len(sample_rate_hz, a);
    lemma_wav_len(sample_rate_hz, b);
    assert forall|i: int| 0 <= i < a.len() implies a[i] == b[i] by {
        lemma_wav_samples(sample_rate_hz, a, i);
        lemma_wav_samples(sample_rate_hz, b, i);
        lemma_sample_bytes_injective(a[i], b[i]);
    }
    assert(a =~= b);
}

proof fn lemma_sample_bytes_injective(a: i16, b: i16)
    requires
        sample_bytes(a) == sample_bytes(b),
    ensures
        a == b,
{
    let x: int = if a < 0 {
        a + 0x1_0000
    } else {
        a as int
    };
    let y: int = if b < 0 {
        b + 0x1_0000
    } else {
        b as int
    };
    assert(le16(x)[0] == le16(y)[0]);
    assert(le16(x)[1] == le16(y)[1]);
    assert(0 <= x < 0x1_0000 && 0 <= y < 0x1_0000);
    assert(x == (x / 0x100) * 0x100 + x % 0x100);
    assert(y == (y / 0x100) * 0x100 + y % 0x100);
}

/// The number that two bytes hold, the least significant first.
pub open spec fn read16(bytes: Seq<u8>, at: int) -> int {
    bytes[at] + 256 * bytes[at + 1]
}

/// The number that four bytes hold, the least significant first.
pub open spec fn read32(bytes: Seq<u8>, at: int) -> int {
    bytes[at] + 256 * bytes[at + 1] + 65_536 * bytes[at + 2] + 16_777_216 * bytes[at + 3]
}

proof fn lemma_read16(n: int, bytes: Seq<u8>, at: int)
    requires
        0 <= n < 65_536,
        0 <= at,
        at + 2 <= bytes.len(),
        bytes.subrange(at, at + 2) == le16(n),
    ensures
        read16(bytes, at) == n,
{
    let part = bytes.subrange(at, at + 2);
    assert(part[0] == bytes[at] && part[1] == bytes[at + 1]);
    assert(n == (n / 0x100) * 0x100 + n % 0x100);
}

proof fn lemma_read32(n: int, bytes: Seq<u8>, at: int)
    requires
        0 <= n < 4_294_967_296,
        0 <= at,
        at + 4 <= bytes.len(),
        bytes.subrange(at, at + 4) == le32(n),
    ensures
        read32(bytes, at) == n,
{
    let part = bytes.subrange(at, at + 4);
    assert(part.subrange(0, 2) =~= le16(n % 0x1_0000));
    assert(part.subrange(2, 4) =~= le16(n / 0x1_0000));
    lemma_read16(n % 0x1_0000, part, 0);
    lemma_read16(n / 0x1_0000, part, 2);
    assert(part[0] == bytes[at] && part[1] == bytes[at + 1] && part[2] == bytes[at + 2] && part[3]
        == bytes[at + 3]);
    assert(n == (n / 0x1_0000) * 0x1_0000 + n % 0x1_0000);
}

#[verifier::spinoff_prover]
proof fn lemma_wav_head(rate: int, samples: Seq<i16>)
    ensures
        ({
            let file = wav_bytes(1, rate, samples);
            &&& file.subrange(0, 4) == seq![82u8, 73, 70, 70]
            &&& file.subrange(4, 8) == le32(36 + 2 * samples.len() as int)
            &&& file.subrange(8, 16) == seq![87u8, 65, 86, 69, 102, 109, 116, 32]
            &&& file.subrange(16, 20) == le32(16)
            &&& file.subrange(20, 22) == le16(1)
            &&& file.subrange(22, 24) == le16(1)
        }),
{
    let file = wav_bytes(1, rate, samples);
    let head = seq![0x52u8, 0x49u8, 0x46u8, 0x46u8] + le32(36 + 2 * samples.len() as int) + seq![
        0x57u8,
        0x41u8,
        0x56u8,
        0x45u8,
    ] + seq![0x66u8, 0x6du8, 0x74u8, 0x20u8] + le32(16) + le16(1) + le16(1);
    assert(head.len() == 24);
    assert(file.take(24) =~= head);
    assert(file.subrange(0, 4) =~= head.subrange(0, 4));
    assert(file.subrange(4, 8) =~= head.subrange(4, 8));
    assert(file.subrange(8, 16) =~= head.subrange(8, 16));
    assert(file.subrange(16, 20) =~= head.subrange(16, 20));
    assert(file.subrange(20, 22) =~= head.subrange(20, 22));
    assert(file.subrange(22, 24) =~= head.subrange(22, 24));
    assert(head.subrange(0, 4) =~= seq![82u8, 73, 70, 70]);
    assert(head.subrange(4, 8) =~= le32(36 + 2 * samples.len() as int));
    assert(head.subrange(8, 16) =~= seq![87u8, 65, 86, 69, 102, 109, 116, 32]);
    assert(head.subrange(16, 20) =~= le32(16));
    assert(head.subrange(20, 22) =~= le16(1));
    assert(head.subrange(22, 24) =~= le16(1));
}

#[verifier::spinoff_prover]
proof fn lemma_wav_counts(rate: int, samples: Seq<i16>)
    ensures
        ({
            let file = wav_bytes(1, rate, samples);
            &&& file.subrange(24, 28) == le32(rate)
            &&& file.subrange(28, 32) == le32(rate * 2)
            &&& file.subrange(32, 34) == le16(2)
            &&& file.subrange(34, 36) == le16(16)
            &&& file.subrange(36, 40) == seq![100u8, 97, 116, 97]
            &&& file.subrange(40, 44) == le32(2 * samples.len() as int)
        }),
{
    let file = wav_bytes(1, rate, samples);
    let tail = le32(rate) + le32(rate * 2) + le16(2) + le16(16) + seq![
        0x64u8,
        0x61u8,
        0x74u8,
        0x61u8,
    ] + le32(2 * samples.len() as int);
    assert(tail.len() == 20);
    assert(file.subrange(24, 44) =~= tail);
    assert(file.subrange(24, 28) =~= tail.subrange(0, 4));
    assert(file.subrange(28, 32) =~= tail.subrange(4, 8));
    assert(file.subrange(32, 34) =~= tail.subrange(8, 10));
    assert(file.subrange(34, 36) =~= tail.subrange(10, 12));
    assert(file.subrange(36, 40) =~= tail.subrange(12, 16));
    assert(file.subrange(40, 44) =~= tail.subrange(16, 20));
    assert(tail.subrange(0, 4) =~= le32(rate));
    assert(tail.subrange(4, 8) =~= le32(rate * 2));
    assert(tail.subrange(8, 10) =~= le16(2));
    assert(tail.subrange(10, 12) =~= le16(16));
    assert(tail.subrange(12, 16) =~= seq![100u8, 97, 116, 97]);
    assert(tail.subrange(16, 20) =~= le32(2 * samples.len() as int));
}

/// What a player reads in a file: a WAVE file of uncompressed 16-bit samples on one channel, at the
/// sample rate, whose counts of bytes are right, and whose samples are those that were handed in.
pub proof fn lemma_what_a_player_reads(
    sample_rate_hz: u32,
    samples: Vec<i16>,
    r: Result<Vec<u8>, Qwen3TtsError>,
    i: int,
)
    requires
        call_ensures(encode_wav, (sample_rate_hz, &samples), r),
        sample_rate_hz > 0,
        sample_rate_hz * 2 <= u32::MAX,
        36 + 2 * samples@.len() <= u32::MAX,
    ensures
        r is Ok,
        ({
            let file = r->Ok_0@;
            &&& file.len() == 44 + 2 * samples@.len()
            &&& file.subrange(0, 4) == seq![82u8, 73, 70, 70]
            &&& read32(file, 4) == file.len() - 8
            &&& file.subrange(8, 16) == seq![87u8, 65, 86, 69, 102, 109, 116, 32]
            &&& read32(file, 16) == 16
            &&& read16(file, 20) == 1
            &&& read16(file, 22) == 1
            &&& read32(file, 24) == sample_rate_hz
            &&& read32(file, 28) == 2 * sample_rate_hz
            &&& read16(file, 32) == 2
            &&& read16(file, 34) == 16
            &&& file.subrange(36, 40) == seq![100u8, 97, 116, 97]
            &&& read32(file, 40) == 2 * samples@.len()
            &&& 0 <= i < samples@.len() ==> read16(file, 44 + 2 * i) == (if samples@[i] >= 0 {
                samples@[i] as int
            } else {
                samples@[i] + 65_536
            })
        }),
{
    let file = r->Ok_0@;
    let n = samples@.len() as int;
    lemma_wav_len(sample_rate_hz, samples@);
    lemma_data_len(samples@);
    lemma_wav_head(sample_rate_hz as int, samples@);
    lemma_wav_counts(sample_rate_hz as int, samples@);
    lemma_read32(36 + 2 * n, file, 4);
    lemma_read32(16, file, 16);
    lemma_read16(1, file, 20);
    lemma_read16(1, file, 22);
    lemma_read32(sample_rate_hz as int, file, 24);
    lemma_read32(sample_rate_hz * 2, file, 28);
    lemma_read16(2, file, 32);
    lemma_read16(16, file, 34);
    lemma_read32(2 * n, file, 40);
    if 0 <= i < n {
        lemma_wav_samples(sample_rate_hz, samples@, i);
        let s: int = if samples@[i] >= 0 {
            samples@[i] as int
        } else {
            samples@[i] + 65_536
        };
        lemma_read16(s, file, 44 + 2 * i);
    }
}

/// The sample rates and lengths that a file can hold.
pub proof fn lemma_what_fits(sample_rate_hz: u32, samples: usize, r: bool)
    requires
        call_ensures(wav_fits, (sample_rate_hz, samples), r),
    ensures
        r <==> 0 < sample_rate_hz <= 2_147_483_647 && samples <= 2_147_483_629,
{
}

/// What was written is handed out as it is, and what could not be written is an error.
pub proof fn lemma_written(
    written: Result<Vec<u8>, hound::Error>,
    r: Result<Vec<u8>, Qwen3TtsError>,
)
    requires
        call_ensures(written_wav, (written,), r),
    ensures
        r is Ok <==> written is Ok,
        written is Ok ==> r->Ok_0@ == written->Ok_0@,
        r is Err ==> r->Err_0@ == ErrorModel::InvalidInput("failed to write WAV"@),
{
}

} // verus!
