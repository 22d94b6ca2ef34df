//! The fixed twenty-four-byte format descriptor record: magic, descriptor
//! size, linear-PCM tag, channel count, sample rate, byte rate, block
//! alignment and bits per sample, all little-endian.

use vstd::prelude::*;

use crate::util::le16;
use crate::util::le32;
use crate::WavError;

verus! {

/// The twenty-four bytes of a format descriptor: `fmt ` magic, the fixed
/// descriptor size of sixteen, the fixed linear-PCM tag of one, then the
/// four configurable fields.
pub open spec fn format_bytes(
    channels: u16,
    sample_rate: u32,
    byte_rate: u32,
    block_align: u16,
    bits_sample: u16,
) -> Seq<u8> {
    seq![102u8, 109u8, 116u8, 32u8] + le32(16) + le16(1) + le16(channels) + le32(sample_rate)
        + le32(byte_rate) + le16(block_align) + le16(bits_sample)
}

/// The format descriptor record with its private emission cursor. The
/// magic, descriptor size and PCM tag are fixed; the remaining fields are
/// set through the setters before `fill` is first called.
#[derive(Debug)]
pub struct FormatChunk {
    number_channels: u16,
    samples_second: u32,
    bytes_second: u32,
    block_alignment: u16,
    bits_sample: u16,
    read_cur: usize,
}

impl FormatChunk {
    /// The channel count field as it will be emitted.
    pub closed spec fn channels_spec(&self) -> u16 {
        self.number_channels
    }

    /// The sample rate field as it will be emitted.
    pub closed spec fn sample_rate_spec(&self) -> u32 {
        self.samples_second
    }

    /// The byte rate field as it will be emitted.
    pub closed spec fn byte_rate_spec(&self) -> u32 {
        self.bytes_second
    }

    /// The block alignment field as it will be emitted.
    pub closed spec fn block_align_spec(&self) -> u16 {
        self.block_alignment
    }

    /// The bits-per-sample field as it will be emitted.
    pub closed spec fn bits_sample_spec(&self) -> u16 {
        self.bits_sample
    }

    /// How many of the record's bytes have been handed out so far.
    pub closed spec fn emitted(&self) -> int {
        self.read_cur as int
    }

    /// The record as it will be emitted.
    pub open spec fn record_bytes(&self) -> Seq<u8> {
        format_bytes(
            self.channels_spec(),
            self.sample_rate_spec(),
            self.byte_rate_spec(),
            self.block_align_spec(),
            self.bits_sample_spec(),
        )
    }

    /// Set number of channels for the file.
    pub fn set_number_channels(&mut self, chans: u16)
        ensures
            final(self).channels_spec() == chans,
            final(self).sample_rate_spec() == old(self).sample_rate_spec(),
            final(self).byte_rate_spec() == old(self).byte_rate_spec(),
            final(self).block_align_spec() == old(self).block_align_spec(),
            final(self).bits_sample_spec() == old(self).bits_sample_spec(),
            final(self).emitted() == old(self).emitted(),
    {
        self.number_channels = chans;
    }

    /// Set number of samples per second for the data of the file.
    pub fn set_sample_rate(&mut self, rate: u32)
        ensures
            final(self).sample_rate_spec() == rate,
            final(self).channels_spec() == old(self).channels_spec(),
            final(self).byte_rate_spec() == old(self).byte_rate_spec(),
            final(self).block_align_spec() == old(self).block_align_spec(),
            final(self).bits_sample_spec() == old(self).bits_sample_spec(),
            final(self).emitted() == old(self).emitted(),
    {
        self.samples_second = rate;
    }

    /// Set the byte rate: channels times sample byte size times sample rate.
    pub fn set_byte_rate(&mut self, bytes: u32)
        ensures
            final(self).byte_rate_spec() == bytes,
            final(self).channels_spec() == old(self).channels_spec(),
            final(self).sample_rate_spec() == old(self).sample_rate_spec(),
            final(self).block_align_spec() == old(self).block_align_spec(),
            final(self).bits_sample_spec() == old(self).bits_sample_spec(),
            final(self).emitted() == old(self).emitted(),
    {
        self.bytes_second = bytes;
    }

    /// Set the block alignment: channels times sample byte size.
    pub fn set_block_align(&mut self, align: u16)
        ensures
            final(self).block_align_spec() == align,
            final(self).channels_spec() == old(self).channels_spec(),
            final(self).sample_rate_spec() == old(self).sample_rate_spec(),
            final(self).byte_rate_spec() == old(self).byte_rate_spec(),
            final(self).bits_sample_spec() == old(self).bits_sample_spec(),
            final(self).emitted() == old(self).emitted(),
    {
        self.block_alignment = align;
    }

    /// Set the number of bits per sample.
    pub fn set_bits_sample(&mut self, bits: u16)
        ensures
            final(self).bits_sample_spec() == bits,
            final(self).channels_spec() == old(self).channels_spec(),
            final(self).sample_rate_spec() == old(self).sample_rate_spec(),
            final(self).byte_rate_spec() == old(self).byte_rate_spec(),
            final(self).block_align_spec() == old(self).block_align_spec(),
            final(self).emitted() == old(self).emitted(),
    {
        self.bits_sample = bits;
    }

    /// Delivers the whole record into the start of `buf` in one call.
    ///
    /// Returns `Ok(24)` and advances the cursor past the end when the
    /// record has not been delivered yet, `Ok(0)` forever after, and
    /// `Err(WavError::BufferTooSmall)` without any effect when `buf`
    /// cannot hold the record.
    pub fn fill(&mut self, buf: &mut Vec<u8>) -> (r: Result<usize, WavError>)
        ensures
            final(buf).len() == old(buf).len(),
            final(self).record_bytes() == old(self).record_bytes(),
            old(self).emitted() >= 24 ==> r == Ok::<usize, WavError>(0) && final(buf)@ == old(buf)@
                && final(self).emitted() == old(self).emitted(),
            old(self).emitted() < 24 && old(buf).len() < 24 ==> r == Err::<usize, WavError>(
                WavError::BufferTooSmall,
            ) && final(buf)@ == old(buf)@ && final(self).emitted() == old(self).emitted(),
            old(self).emitted() < 24 && old(buf).len() >= 24 ==> r == Ok::<usize, WavError>(24)
                && final(self).emitted() == 24 && final(buf)@ == old(self).record_bytes() + old(
                buf,
            )@.subrange(24, old(buf).len() as int),
    {
        if self.read_cur >= 24 {
            return Ok(0);
        }
        if buf.len() < 24 {
            return Err(WavError::BufferTooSmall);
        }
        let mut rec: Vec<u8> = Vec::new();
        rec.push(102);
        rec.push(109);
        rec.push(116);
        rec.push(32);
        crate::util::push_le32(&mut rec, 16);
        crate::util::push_le16(&mut rec, 1);
        crate::util::push_le16(&mut rec, self.number_channels);
        crate::util::push_le32(&mut rec, self.samples_second);
        crate::util::push_le32(&mut rec, self.bytes_second);
        crate::util::push_le16(&mut rec, self.block_alignment);
        crate::util::push_le16(&mut rec, self.bits_sample);
        proof {
            assert(rec@ =~= self.record_bytes());
        }
        crate::util::append_bytes(&rec, buf, 0);
        proof {
            assert(buf@ =~= old(self).record_bytes() + old(buf)@.subrange(
                24,
                old(buf).len() as int,
            ));
        }
        self.read_cur = 24;
        Ok(24)
    }
}

impl Default for FormatChunk {
    /// A fresh descriptor: one channel, thirty-two bits per sample, the
    /// rate fields still zero, and nothing emitted yet.
    fn default() -> (r: FormatChunk)
        ensures
            r.channels_spec() == 1,
            r.sample_rate_spec() == 0,
            r.byte_rate_spec() == 0,
            r.block_align_spec() == 0,
            r.bits_sample_spec() == 32,
            r.emitted() == 0,
    {
        FormatChunk {
            number_channels: 1,
            samples_second: 0,
            bytes_second: 0,
            block_alignment: 0,
            bits_sample: 32,
            read_cur: 0,
        }
    }
}

} // verus!
