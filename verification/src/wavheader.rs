//! The fixed twelve-byte file header record: the `RIFF` magic, the total
//! size field, and the `WAVE` format magic, delivered through the same
//! resumable pull interface as the other records.

use vstd::prelude::*;

use crate::util::le32;
use crate::WavError;

verus! {

/// The twelve bytes of a file header that declares `file_size` bytes to
/// follow its first eight bytes: `RIFF`, the size in little-endian order,
/// then `WAVE`.
pub open spec fn header_bytes(file_size: u32) -> Seq<u8> {
    seq![82u8, 73u8, 70u8, 70u8] + le32(file_size) + seq![87u8, 65u8, 86u8, 69u8]
}

/// The file header record with its private emission cursor. Content is
/// fixed by `set_size`; the cursor is the only state that `fill` moves.
#[derive(Debug)]
pub struct WavHeader {
    file_size: u32,
    read_cur: usize,
}

impl WavHeader {
    /// The size field as it will be emitted.
    pub closed spec fn size_spec(&self) -> u32 {
        self.file_size
    }

    /// How many of the record's bytes have been handed out so far.
    pub closed spec fn emitted(&self) -> int {
        self.read_cur as int
    }

    /// Set the size field of the header.
    pub fn set_size(&mut self, size: u32)
        ensures
            final(self).size_spec() == size,
            final(self).emitted() == old(self).emitted(),
    {
        self.file_size = size;
    }

    /// Delivers the whole record into the start of `buf` in one call.
    ///
    /// Returns `Ok(12)` and advances the cursor past the end when the
    /// record has not been delivered yet, `Ok(0)` forever after, and
    /// `Err(WavError::BufferTooSmall)` without any effect when `buf`
    /// cannot hold the record.
    pub fn fill(&mut self, buf: &mut Vec<u8>) -> (r: Result<usize, WavError>)
        ensures
            final(buf).len() == old(buf).len(),
            final(self).size_spec() == old(self).size_spec(),
            old(self).emitted() >= 12 ==> r == Ok::<usize, WavError>(0) && final(buf)@ == old(buf)@
                && final(self).emitted() == old(self).emitted(),
            old(self).emitted() < 12 && old(buf).len() < 12 ==> r == Err::<usize, WavError>(
                WavError::BufferTooSmall,
            ) && final(buf)@ == old(buf)@ && final(self).emitted() == old(self).emitted(),
            old(self).emitted() < 12 && old(buf).len() >= 12 ==> r == Ok::<usize, WavError>(12)
                && final(self).emitted() == 12 && final(buf)@ == header_bytes(
                old(self).size_spec(),
            ) + old(buf)@.subrange(12, old(buf).len() as int),
    {
        if self.read_cur >= 12 {
            return Ok(0);
        }
        if buf.len() < 12 {
            return Err(WavError::BufferTooSmall);
        }
        let mut rec: Vec<u8> = Vec::new();
        rec.push(82);
        rec.push(73);
        rec.push(70);
        rec.push(70);
        crate::util::push_le32(&mut rec, self.file_size);
        rec.push(87);
        rec.push(65);
        rec.push(86);
        rec.push(69);
        proof {
            assert(rec@ =~= header_bytes(self.file_size));
        }
        crate::util::append_bytes(&rec, buf, 0);
        proof {
            assert(buf@ =~= header_bytes(self.file_size) + old(buf)@.subrange(
                12,
                old(buf).len() as int,
            ));
        }
        self.read_cur = 12;
        Ok(12)
    }
}

impl Default for WavHeader {
    /// A fresh header with a zero size field and nothing emitted yet.
    fn default() -> (r: WavHeader)
        ensures
            r.size_spec() == 0,
            r.emitted() == 0,
    {
        WavHeader { file_size: 0, read_cur: 0 }
    }
}

} // verus!
