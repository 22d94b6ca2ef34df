//! The variable-length data block record: `data` magic, declared payload
//! length, and the raw interleaved samples, each sample carried as the
//! little-endian bytes of its thirty-two-bit pattern. Unlike the two
//! fixed records this one streams: `fill` may be called with a buffer
//! smaller than the record and resumes where the previous call stopped,
//! never splitting a four-byte field across calls.

use vstd::prelude::*;

use crate::util::le32;
use crate::WavError;

verus! {

/// Upper bound on the number of samples a data block accepts, so that the
/// record length in bytes always fits the container's thirty-two-bit size
/// field.
pub const MAX_DATA_SAMPLES: usize = 0x3FFF_FFF0;

/// The payload: four little-endian bytes for each sample in order.
pub open spec fn payload_bytes(samples: Seq<u32>) -> Seq<u8> {
    Seq::new(4 * samples.len(), |i: int| le32(samples[i / 4])[i % 4])
}

/// The whole record: `data` magic, declared payload length, payload.
pub open spec fn data_bytes(size: u32, samples: Seq<u32>) -> Seq<u8> {
    seq![100u8, 97u8, 116u8, 97u8] + le32(size) + payload_bytes(samples)
}

/// The record seen as a sequence of four-byte units: the magic, then the
/// declared size, then one unit per sample.
pub open spec fn unit_value(size: u32, samples: Seq<u32>, u: int) -> u32 {
    if u == 0 {
        0x61746164u32
    } else if u == 1 {
        size
    } else {
        samples[u - 2]
    }
}

proof fn lemma_mul4_div_mod(m: int, k: int)
    by (nonlinear_arith)
    requires
        0 <= m,
        0 <= k < 4,
    ensures
        (4 * m + k) / 4 == m,
        (4 * m + k) % 4 == k,
{
}

/// Unit `u` of the record occupies bytes `4u .. 4u + 4`, in little-endian
/// order.
pub proof fn lemma_data_unit(size: u32, samples: Seq<u32>, u: int)
    requires
        0 <= u < 2 + samples.len(),
    ensures
        data_bytes(size, samples).subrange(4 * u, 4 * u + 4) =~= le32(
            unit_value(size, samples, u),
        ),
{
    let d = data_bytes(size, samples);
    assert forall|k: int| 0 <= k < 4 implies d[4 * u + k] == le32(unit_value(size, samples, u))[k] by {
        if u >= 2 {
            let i = 4 * u + k - 8;
            lemma_mul4_div_mod(u - 2, k);
            assert(payload_bytes(samples)[i] == le32(samples[i / 4])[i % 4]);
        }
    }
}

/// Resumable delivery concatenates: the stretch of record bytes one
/// interrupted pair of calls hands out, first from cursor `a` to `b` and
/// then from `b` to `c`, is exactly the stretch a single uninterrupted
/// call from `a` to `c` would hand out.
pub proof fn lemma_fill_accumulates(rec: Seq<u8>, a: int, b: int, c: int)
    requires
        0 <= a <= b <= c <= rec.len(),
    ensures
        rec.subrange(a, b) + rec.subrange(b, c) == rec.subrange(a, c),
{
    assert(rec.subrange(a, b) + rec.subrange(b, c) =~= rec.subrange(a, c));
}

/// The data block record: content fields plus the private emission
/// cursor, which always sits on a four-byte unit boundary.
#[derive(Debug)]
pub struct DataChunk {
    size_data: u32,
    sample_vector: Vec<u32>,
    read_cur: usize,
}

impl DataChunk {
    /// The samples the record carries, as thirty-two-bit patterns.
    pub closed spec fn samples(&self) -> Seq<u32> {
        self.sample_vector@
    }

    /// The declared payload length field.
    pub closed spec fn declared_size(&self) -> u32 {
        self.size_data
    }

    /// How many of the record's bytes have been handed out so far.
    pub closed spec fn emitted(&self) -> int {
        self.read_cur as int
    }

    /// Total length of the record in bytes.
    pub open spec fn total_len(&self) -> int {
        8 + 4 * self.samples().len() as int
    }

    /// The record as it will be emitted.
    pub open spec fn record_bytes(&self) -> Seq<u8> {
        data_bytes(self.declared_size(), self.samples())
    }

    /// Well-formedness: the sample count is bounded by the size field's
    /// width, and the cursor sits on a unit boundary inside the record.
    pub open spec fn wf(&self) -> bool {
        &&& self.samples().len() <= MAX_DATA_SAMPLES
        &&& self.emitted() % 4 == 0
        &&& 0 <= self.emitted() <= self.total_len()
    }

    /// Append one sample to the payload.
    pub fn push_sample(&mut self, sample: u32)
        requires
            old(self).wf(),
            old(self).samples().len() < MAX_DATA_SAMPLES,
        ensures
            final(self).wf(),
            final(self).samples() == old(self).samples() + seq![sample],
            final(self).declared_size() == old(self).declared_size(),
            final(self).emitted() == old(self).emitted(),
    {
        self.sample_vector.push(sample);
    }

    /// Set the declared payload length field.
    pub fn set_size(&mut self, size: u32)
        ensures
            final(self).declared_size() == size,
            final(self).samples() == old(self).samples(),
            final(self).emitted() == old(self).emitted(),
            old(self).wf() ==> final(self).wf(),
    {
        self.size_data = size;
    }

    /// Number of samples in the payload.
    pub fn len(&self) -> (r: usize)
        ensures
            r == self.samples().len(),
    {
        self.sample_vector.len()
    }

    /// Delivers the next stretch of the record into the start of `buf`.
    ///
    /// Each call hands out as many whole four-byte units as `buf` can
    /// hold, starting where the previous call stopped, and returns the
    /// number of bytes written; the bytes delivered across calls are
    /// exactly the record's bytes in order. Once the record is complete
    /// every further call returns `Ok(0)`. A buffer that cannot hold the
    /// record header and one sample is rejected with
    /// `Err(WavError::BufferTooSmall)` and has no effect.
    pub fn fill(&mut self, buf: &mut Vec<u8>) -> (r: Result<usize, WavError>)
        requires
            old(self).wf(),
        ensures
            final(self).wf(),
            final(buf).len() == old(buf).len(),
            final(self).samples() == old(self).samples(),
            final(self).declared_size() == old(self).declared_size(),
            old(self).emitted() == old(self).total_len() ==> r == Ok::<usize, WavError>(0)
                && final(buf)@ == old(buf)@ && final(self).emitted() == old(self).emitted(),
            old(self).emitted() < old(self).total_len() && old(buf).len() < 12 ==> r == Err::<
                usize,
                WavError,
            >(WavError::BufferTooSmall) && final(buf)@ == old(buf)@ && final(self).emitted() == old(
                self,
            ).emitted(),
            old(self).emitted() < old(self).total_len() && old(buf).len() >= 12 ==> {
                &&& r matches Ok(n)
                &&& 0 < n
                &&& n % 4 == 0
                &&& final(self).emitted() == old(self).emitted() + n
                &&& final(self).emitted() == old(self).total_len() || old(buf).len() < n + 4
                &&& forall|j: int|
                    0 <= j < n ==> final(buf)@[j] == old(self).record_bytes()[old(self).emitted()
                        + j]
                &&& forall|j: int|
                    n <= j < old(buf).len() ==> final(buf)@[j] == old(buf)@[j]
            },
    {
        let total_bytes: usize = 8 + 4 * self.sample_vector.len();
        if self.read_cur >= total_bytes {
            return Ok(0);
        }
        if buf.len() < 12 {
            return Err(WavError::BufferTooSmall);
        }
        let ghost rec = self.record_bytes();
        let mut written: usize = 0;
        while written <= buf.len() - 4 && self.read_cur + written < total_bytes
            invariant
                self == old(self),
                buf.len() == old(buf).len(),
                buf.len() >= 12,
                total_bytes == self.total_len(),
                rec == self.record_bytes(),
                self.wf(),
                written % 4 == 0,
                self.read_cur + written <= total_bytes,
                forall|j: int| 0 <= j < written ==> buf@[j] == rec[self.emitted() + j],
                forall|j: int| written <= j < buf.len() ==> buf@[j] == old(buf)@[j],
            decreases total_bytes - self.read_cur - written,
        {
            let pos = self.read_cur + written;
            let u = pos / 4;
            proof {
                assert(rec.len() == total_bytes);
                assert(pos % 4 == 0);
                assert(pos == 4 * (pos / 4) + pos % 4) by {
                    vstd::arithmetic::div_mod::lemma_fundamental_div_mod(pos as int, 4);
                }
                assert(4 * (u as int) < 4 * (2 + self.samples().len()));
                lemma_data_unit(self.declared_size(), self.samples(), u as int);
            }
            let val: u32 = if u == 0 {
                0x61746164u32
            } else if u == 1 {
                self.size_data
            } else {
                self.sample_vector[u - 2]
            };
            buf.set(written, (val % 256) as u8);
            buf.set(written + 1, ((val / 256) % 256) as u8);
            buf.set(written + 2, ((val / 65536) % 256) as u8);
            buf.set(written + 3, ((val / 16777216) % 256) as u8);
            written = written + 4;
        }
        self.read_cur = self.read_cur + written;
        Ok(written)
    }
}

impl Default for DataChunk {
    /// A fresh data block: no samples, a zero size field, and nothing
    /// emitted yet.
    fn default() -> (r: DataChunk)
        ensures
            r.wf(),
            r.samples() == Seq::<u32>::empty(),
            r.declared_size() == 0,
            r.emitted() == 0,
    {
        DataChunk { size_data: 0, sample_vector: Vec::new(), read_cur: 0 }
    }
}

/// Packages one channel of samples as a data block whose declared size is
/// four bytes per sample.
pub fn create_mono_datachunk(data: Vec<u32>) -> (r: DataChunk)
    requires
        data.len() <= MAX_DATA_SAMPLES,
    ensures
        r.wf(),
        r.samples() == data@,
        r.declared_size() == 4 * data.len(),
        r.emitted() == 0,
{
    let mut dc: DataChunk = Default::default();
    let mut i: usize = 0;
    while i < data.len()
        invariant
            i <= data.len(),
            data.len() <= MAX_DATA_SAMPLES,
            dc.wf(),
            dc.samples() =~= data@.subrange(0, i as int),
            dc.declared_size() == 0,
            dc.emitted() == 0,
        decreases data.len() - i,
    {
        dc.push_sample(data[i]);
        i = i + 1;
    }
    proof {
        assert(dc.samples() =~= data@);
    }
    let len: u32 = (dc.len() as u32) * 4;
    dc.set_size(len);
    dc
}

/// Zips two equal-length channels sample by sample, left first, into a
/// data block whose declared size is eight bytes per sample pair.
/// Channels of unequal length are rejected.
pub fn create_stereo_datachunk(one: Vec<u32>, two: Vec<u32>) -> (r: Result<DataChunk, WavError>)
    requires
        one.len() <= MAX_DATA_SAMPLES / 2,
    ensures
        one.len() == two.len() <==> r is Ok,
        one.len() != two.len() ==> r == Err::<DataChunk, WavError>(WavError::ChannelMismatch),
        r matches Ok(dc) ==> {
            &&& dc.wf()
            &&& dc.samples().len() == 2 * one.len()
            &&& forall|i: int|
                0 <= i < one.len() ==> dc.samples()[2 * i] == one@[i] && dc.samples()[2 * i + 1]
                    == two@[i]
            &&& dc.declared_size() == 8 * one.len()
            &&& dc.emitted() == 0
        },
{
    if one.len() != two.len() {
        return Err(WavError::ChannelMismatch);
    }
    let mut dc: DataChunk = Default::default();
    let mut i: usize = 0;
    while i < one.len()
        invariant
            i <= one.len(),
            one.len() == two.len(),
            one.len() <= MAX_DATA_SAMPLES / 2,
            dc.wf(),
            dc.samples().len() == 2 * i,
            forall|j: int|
                0 <= j < i ==> dc.samples()[2 * j] == one@[j] && dc.samples()[2 * j + 1] == two@[j],
            dc.declared_size() == 0,
            dc.emitted() == 0,
        decreases one.len() - i,
    {
        dc.push_sample(one[i]);
        dc.push_sample(two[i]);
        i = i + 1;
    }
    let len: u32 = (dc.len() as u32) * 4;
    dc.set_size(len);
    Ok(dc)
}

} // verus!
