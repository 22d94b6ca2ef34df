//! The overall container: file header, format descriptor and data block
//! side by side, plus the assembly function that derives the size fields
//! from already-validated parameters, and the proof that the emitted byte
//! stream decodes back to exactly what went in.

use vstd::prelude::*;

use crate::datachunk::data_bytes;
use crate::datachunk::DataChunk;
use crate::formatchunk::format_bytes;
use crate::formatchunk::FormatChunk;
use crate::util::le16;
use crate::util::le32;
use crate::util::u16_from_le;
use crate::util::u32_from_le;
use crate::wavheader::header_bytes;
use crate::wavheader::WavHeader;

verus! {

/// A whole container file with a single data block, each record keeping
/// its own emission cursor.
#[derive(Debug)]
pub struct Wav {
    pub header: WavHeader,
    pub format_chunk: FormatChunk,
    pub data: DataChunk,
}

/// The byte stream of a whole container file: the three records
/// concatenated.
pub open spec fn container_bytes(
    file_size: u32,
    channels: u16,
    sample_rate: u32,
    byte_rate: u32,
    block_align: u16,
    bits_sample: u16,
    size_data: u32,
    samples: Seq<u32>,
) -> Seq<u8> {
    header_bytes(file_size) + format_bytes(
        channels,
        sample_rate,
        byte_rate,
        block_align,
        bits_sample,
    ) + data_bytes(size_data, samples)
}

impl Wav {
    /// Pack three already-built records into a container value.
    pub fn create_new(hdr: WavHeader, fmt: FormatChunk, data_in: DataChunk) -> (r: Wav)
        ensures
            r.header == hdr,
            r.format_chunk == fmt,
            r.data == data_in,
    {
        Wav { header: hdr, format_chunk: fmt, data: data_in }
    }
}

/// Packages a data block as a one-channel container. The byte rate is
/// channels times sample rate times sample byte size, the block alignment
/// is channels times sample byte size, and the declared total size is the
/// payload size plus the descriptor length and the data block header
/// length: the bytes that follow the first eight of the file.
pub fn create_mono_wav(data_in: DataChunk, sample_rate: u32, sample_bits: u32) -> (r: Wav)
    requires
        data_in.wf(),
        sample_bits <= u16::MAX,
        sample_rate * (sample_bits / 8) <= u32::MAX,
        data_in.samples().len() * ((sample_bits / 8) as int) + 32 <= u32::MAX,
    ensures
        r.data == data_in,
        r.header.size_spec() == data_in.samples().len() * ((sample_bits / 8) as int) + 32,
        r.header.emitted() == 0,
        r.format_chunk.channels_spec() == 1,
        r.format_chunk.sample_rate_spec() == sample_rate,
        r.format_chunk.byte_rate_spec() == sample_rate * (sample_bits / 8),
        r.format_chunk.block_align_spec() == sample_bits / 8,
        r.format_chunk.bits_sample_spec() == sample_bits,
        r.format_chunk.emitted() == 0,
{
    let mut fmt: FormatChunk = Default::default();
    let num_channels: u32 = 1;
    fmt.set_sample_rate(sample_rate);
    fmt.set_byte_rate(num_channels * sample_rate * (sample_bits / 8));
    fmt.set_block_align((num_channels * (sample_bits / 8)) as u16);
    fmt.set_bits_sample(sample_bits as u16);

    let data_size: u32 = (data_in.len() as u32) * (sample_bits / 8);
    let total_size: u32 = data_size + 24 + 8;

    let mut hdr: WavHeader = Default::default();
    hdr.set_size(total_size);

    Wav { header: hdr, format_chunk: fmt, data: data_in }
}

/// Packages a data block as a container with the given channel count,
/// one or two. The byte rate is channels times sample rate times sample
/// byte size, the block alignment is channels times sample byte size,
/// and the declared total size is the payload size plus the descriptor
/// length and the data block header length.
pub fn create_wav(data_in: DataChunk, sample_rate: u32, sample_bits: u32, channels: u16) -> (r:
    Wav)
    requires
        data_in.wf(),
        channels == 1 || channels == 2,
        sample_bits <= u16::MAX,
        channels * sample_rate <= u32::MAX,
        channels * sample_rate * (sample_bits / 8) <= u32::MAX,
        data_in.samples().len() * ((sample_bits / 8) as int) + 32 <= u32::MAX,
    ensures
        r.data == data_in,
        r.header.size_spec() == data_in.samples().len() * ((sample_bits / 8) as int) + 32,
        r.header.emitted() == 0,
        r.format_chunk.channels_spec() == channels,
        r.format_chunk.sample_rate_spec() == sample_rate,
        r.format_chunk.byte_rate_spec() == channels * sample_rate * (sample_bits / 8),
        r.format_chunk.block_align_spec() == channels * (sample_bits / 8),
        r.format_chunk.bits_sample_spec() == sample_bits,
        r.format_chunk.emitted() == 0,
{
    let mut fmt: FormatChunk = Default::default();
    fmt.set_number_channels(channels);
    fmt.set_sample_rate(sample_rate);
    fmt.set_byte_rate((channels as u32) * sample_rate * (sample_bits / 8));
    fmt.set_block_align((channels as u32 * (sample_bits / 8)) as u16);
    fmt.set_bits_sample(sample_bits as u16);

    let data_size: u32 = (data_in.len() as u32) * (sample_bits / 8);
    let total_size: u32 = data_size + 24 + 8;

    let mut hdr: WavHeader = Default::default();
    hdr.set_size(total_size);

    Wav { header: hdr, format_chunk: fmt, data: data_in }
}

/// Decoding the emitted container byte stream per the layout recovers
/// every field and every sample that was encoded: the magic bytes stand
/// at their offsets, each little-endian field reads back as the value it
/// was built from, and byte `44 + 4k` onward holds sample `k`.
pub proof fn lemma_container_round_trip(
    file_size: u32,
    channels: u16,
    sample_rate: u32,
    byte_rate: u32,
    block_align: u16,
    bits_sample: u16,
    size_data: u32,
    samples: Seq<u32>,
)
    ensures
        ({
            let stream = container_bytes(
                file_size,
                channels,
                sample_rate,
                byte_rate,
                block_align,
                bits_sample,
                size_data,
                samples,
            );
            &&& stream.len() == 44 + 4 * samples.len()
            &&& stream.subrange(0, 4) == seq![82u8, 73u8, 70u8, 70u8]
            &&& u32_from_le(stream.subrange(4, 8)) == file_size
            &&& stream.subrange(8, 12) == seq![87u8, 65u8, 86u8, 69u8]
            &&& stream.subrange(12, 16) == seq![102u8, 109u8, 116u8, 32u8]
            &&& u32_from_le(stream.subrange(16, 20)) == 16
            &&& u16_from_le(stream.subrange(20, 22)) == 1
            &&& u16_from_le(stream.subrange(22, 24)) == channels
            &&& u32_from_le(stream.subrange(24, 28)) == sample_rate
            &&& u32_from_le(stream.subrange(28, 32)) == byte_rate
            &&& u16_from_le(stream.subrange(32, 34)) == block_align
            &&& u16_from_le(stream.subrange(34, 36)) == bits_sample
            &&& stream.subrange(36, 40) == seq![100u8, 97u8, 116u8, 97u8]
            &&& u32_from_le(stream.subrange(40, 44)) == size_data
            &&& forall|k: int|
                0 <= k < samples.len() ==> u32_from_le(
                    stream.subrange(44 + 4 * k, 48 + 4 * k),
                ) == samples[k]
        }),
{
    let stream = container_bytes(
        file_size,
        channels,
        sample_rate,
        byte_rate,
        block_align,
        bits_sample,
        size_data,
        samples,
    );
    assert(stream.subrange(0, 4) =~= seq![82u8, 73u8, 70u8, 70u8]);
    assert(stream.subrange(4, 8) =~= le32(file_size));
    crate::util::lemma_le32_round_trip(file_size);
    assert(stream.subrange(8, 12) =~= seq![87u8, 65u8, 86u8, 69u8]);
    assert(stream.subrange(12, 16) =~= seq![102u8, 109u8, 116u8, 32u8]);
    assert(stream.subrange(16, 20) =~= le32(16));
    crate::util::lemma_le32_round_trip(16);
    assert(stream.subrange(20, 22) =~= le16(1));
    crate::util::lemma_le16_round_trip(1);
    assert(stream.subrange(22, 24) =~= le16(channels));
    crate::util::lemma_le16_round_trip(channels);
    assert(stream.subrange(24, 28) =~= le32(sample_rate));
    crate::util::lemma_le32_round_trip(sample_rate);
    assert(stream.subrange(28, 32) =~= le32(byte_rate));
    crate::util::lemma_le32_round_trip(byte_rate);
    assert(stream.subrange(32, 34) =~= le16(block_align));
    crate::util::lemma_le16_round_trip(block_align);
    assert(stream.subrange(34, 36) =~= le16(bits_sample));
    crate::util::lemma_le16_round_trip(bits_sample);
    assert(stream.subrange(36, 40) =~= seq![100u8, 97u8, 116u8, 97u8]);
    assert(stream.subrange(40, 44) =~= le32(size_data));
    crate::util::lemma_le32_round_trip(size_data);
    assert forall|k: int| 0 <= k < samples.len() implies u32_from_le(
        stream.subrange(44 + 4 * k, 48 + 4 * k),
    ) == samples[k] by {
        crate::datachunk::lemma_data_unit(size_data, samples, k + 2);
        assert(stream.subrange(44 + 4 * k, 48 + 4 * k) =~= data_bytes(
            size_data,
            samples,
        ).subrange(4 * (k + 2), 4 * (k + 2) + 4));
        crate::util::lemma_le32_round_trip(samples[k]);
    }
}

} // verus!
