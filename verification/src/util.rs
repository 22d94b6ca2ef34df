//! Little-endian transcoding of the fixed-width numeric fields of the
//! container, together with the byte-copy helpers shared by the record
//! encoders. Everything here is pure integer logic.

use vstd::prelude::*;

verus! {

/// Little-endian byte order of a sixteen-bit value: low byte first.
pub open spec fn le16(x: u16) -> Seq<u8> {
    seq![(x % 256) as u8, (x / 256) as u8]
}

/// Little-endian byte order of a thirty-two-bit value: low byte first.
pub open spec fn le32(x: u32) -> Seq<u8> {
    seq![
        (x % 256) as u8,
        ((x / 256) % 256) as u8,
        ((x / 65536) % 256) as u8,
        ((x / 16777216) % 256) as u8,
    ]
}

/// The sixteen-bit value read back from two little-endian bytes.
pub open spec fn u16_from_le(b: Seq<u8>) -> u16
    recommends
        b.len() == 2,
{
    (b[0] + 256 * b[1]) as u16
}

/// The thirty-two-bit value read back from four little-endian bytes.
pub open spec fn u32_from_le(b: Seq<u8>) -> u32
    recommends
        b.len() == 4,
{
    (b[0] + 256 * b[1] + 65536 * b[2] + 16777216 * b[3]) as u32
}

/// Decoding two little-endian bytes undoes the encoding.
pub proof fn lemma_le16_round_trip(x: u16)
    ensures
        u16_from_le(le16(x)) == x,
{
    assert(x % 256 + 256 * (x / 256) == x) by (bit_vector);
}

/// Decoding four little-endian bytes undoes the encoding.
pub proof fn lemma_le32_round_trip(x: u32)
    ensures
        u32_from_le(le32(x)) == x,
{
    assert(x % 256 + 256 * ((x / 256) % 256) + 65536 * ((x / 65536) % 256) + 16777216 * (x
        / 16777216) == x) by (bit_vector);
}

/// Writes the two little-endian bytes of `target` over the start of `output`.
pub fn u16_to_u8(target: u16, output: &mut Vec<u8>)
    requires
        old(output).len() >= 2,
    ensures
        final(output).len() == old(output).len(),
        final(output)@ == le16(target) + old(output)@.subrange(2, old(output).len() as int),
{
    output.set(0, (target % 256) as u8);
    output.set(1, (target / 256) as u8);
    proof {
        assert(output@ =~= le16(target) + old(output)@.subrange(
            2,
            old(output).len() as int,
        ));
    }
}

/// Writes the four little-endian bytes of `target` over the start of `output`.
pub fn u32_to_u8(target: u32, output: &mut Vec<u8>)
    requires
        old(output).len() >= 4,
    ensures
        final(output).len() == old(output).len(),
        final(output)@ == le32(target) + old(output)@.subrange(4, old(output).len() as int),
{
    output.set(0, (target % 256) as u8);
    output.set(1, ((target / 256) % 256) as u8);
    output.set(2, ((target / 65536) % 256) as u8);
    output.set(3, ((target / 16777216) % 256) as u8);
    proof {
        assert(output@ =~= le32(target) + old(output)@.subrange(
            4,
            old(output).len() as int,
        ));
    }
}

/// Appends the four little-endian bytes of `val` to `out`.
pub fn push_le32(out: &mut Vec<u8>, val: u32)
    ensures
        final(out)@ == old(out)@ + le32(val),
{
    out.push((val % 256) as u8);
    out.push(((val / 256) % 256) as u8);
    out.push(((val / 65536) % 256) as u8);
    out.push(((val / 16777216) % 256) as u8);
    proof {
        assert(out@ =~= old(out)@ + le32(val));
    }
}

/// Appends the two little-endian bytes of `val` to `out`.
pub fn push_le16(out: &mut Vec<u8>, val: u16)
    ensures
        final(out)@ == old(out)@ + le16(val),
{
    out.push((val % 256) as u8);
    out.push((val / 256) as u8);
    proof {
        assert(out@ =~= old(out)@ + le16(val));
    }
}

/// Copies `bytes` into `buf` starting at `offset`, when it fits; the copy
/// is skipped entirely when it does not. Returns the length of `bytes`
/// either way.
pub fn append_bytes(bytes: &Vec<u8>, buf: &mut Vec<u8>, offset: usize) -> (r: usize)
    ensures
        r == bytes.len(),
        final(buf).len() == old(buf).len(),
        bytes.len() + offset <= old(buf).len() ==> final(buf)@ == old(buf)@.subrange(
            0,
            offset as int,
        ) + bytes@ + old(buf)@.subrange(offset + bytes.len(), old(buf).len() as int),
        bytes.len() + offset > old(buf).len() ==> final(buf)@ == old(buf)@,
{
    if offset <= buf.len() && bytes.len() <= buf.len() - offset {
        let mut i: usize = 0;
        while i < bytes.len()
            invariant
                i <= bytes.len(),
                bytes.len() + offset <= buf.len(),
                buf.len() == old(buf).len(),
                forall|j: int| 0 <= j < i ==> buf@[offset + j] == bytes@[j],
                forall|j: int|
                    0 <= j < buf.len() && !(offset <= j < offset + i) ==> buf@[j] == old(buf)@[j],
            decreases bytes.len() - i,
        {
            buf.set(offset + i, bytes[i]);
            i = i + 1;
        }
        proof {
            assert(buf@ =~= old(buf)@.subrange(0, offset as int) + bytes@ + old(buf)@.subrange(
                offset + bytes.len(),
                old(buf).len() as int,
            ));
        }
    }
    bytes.len()
}

/// Overwrites every byte of `targ` with zero.
pub fn zero_u8_array(targ: &mut Vec<u8>)
    ensures
        final(targ).len() == old(targ).len(),
        forall|j: int| 0 <= j < final(targ).len() ==> final(targ)@[j] == 0,
{
    let mut i: usize = 0;
    while i < targ.len()
        invariant
            i <= targ.len(),
            targ.len() == old(targ).len(),
            forall|j: int| 0 <= j < i ==> targ@[j] == 0,
        decreases targ.len() - i,
    {
        targ.set(i, 0);
        i = i + 1;
    }
}

} // verus!
