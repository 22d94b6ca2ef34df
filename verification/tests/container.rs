use wavsynth::datachunk::create_mono_datachunk;
use wavsynth::datachunk::create_stereo_datachunk;
use wavsynth::datachunk::DataChunk;
use wavsynth::formatchunk::FormatChunk;
use wavsynth::util::append_bytes;
use wavsynth::util::u16_to_u8;
use wavsynth::util::u32_to_u8;
use wavsynth::util::zero_u8_array;
use wavsynth::wav::create_mono_wav;
use wavsynth::wav::create_wav;
use wavsynth::wav::Wav;
use wavsynth::wavheader::WavHeader;
use wavsynth::WavError;

fn bits(samples: &[f32]) -> Vec<u32> {
    samples.iter().map(|s| s.to_bits()).collect()
}

/// Polls `fill` with a buffer of the given capacity until it reports the
/// end of the record, accumulating everything delivered.
fn drain_data(dc: &mut DataChunk, buf_len: usize) -> Vec<u8> {
    let mut out: Vec<u8> = Vec::new();
    loop {
        let mut buf: Vec<u8> = vec![0u8; buf_len];
        let n = dc.fill(&mut buf).expect("fill failed");
        if n == 0 {
            return out;
        }
        out.extend_from_slice(&buf[..n]);
    }
}

fn drain_wav(wav: &mut Wav, buf_len: usize) -> Vec<u8> {
    let mut out: Vec<u8> = Vec::new();
    let mut buf: Vec<u8> = vec![0u8; buf_len];
    let n = wav.header.fill(&mut buf).expect("header fill failed");
    out.extend_from_slice(&buf[..n]);
    let n = wav.format_chunk.fill(&mut buf).expect("format fill failed");
    out.extend_from_slice(&buf[..n]);
    out.extend_from_slice(&drain_data(&mut wav.data, buf_len));
    out
}

fn u16_at(bytes: &[u8], off: usize) -> u16 {
    u16::from_le_bytes([bytes[off], bytes[off + 1]])
}

fn u32_at(bytes: &[u8], off: usize) -> u32 {
    u32::from_le_bytes([bytes[off], bytes[off + 1], bytes[off + 2], bytes[off + 3]])
}

#[test]
fn create_mono_datachunk_test_01() {
    let payload = [0.0f32, 0.1f32, 0.2f32, 0.3f32, 0.4f32, 0.5f32];
    let mut expected: Vec<u8> = Vec::new();
    expected.extend_from_slice(b"data");
    expected.extend_from_slice(&24u32.to_le_bytes());
    for j in payload.iter() {
        expected.extend_from_slice(&j.to_le_bytes());
    }

    let mut retv = create_mono_datachunk(bits(&payload));
    let mut rbuf: Vec<u8> = vec![0u8; 32];
    let written = retv.fill(&mut rbuf).expect("fill failed");
    assert_eq!(written, 32);
    for i in 0..expected.len() {
        assert_eq!(rbuf[i], expected[i]);
    }
}

/// Encoding a known sequence and decoding the bytes per the layout
/// recovers the samples, the channel count, the sample rate and the
/// declared sizes.
#[test]
fn round_trip_known_mono_sequence() {
    let samples = [0.0f32, 0.25f32, -0.25f32, 0.5f32];
    let dc = create_mono_datachunk(bits(&samples));
    let mut wav = create_mono_wav(dc, 8000, 32);
    let stream = drain_wav(&mut wav, 4096);

    assert_eq!(stream.len(), 44 + 16);
    assert_eq!(&stream[0..4], b"RIFF");
    assert_eq!(u32_at(&stream, 4), 16 + 24 + 8);
    assert_eq!(&stream[8..12], b"WAVE");
    assert_eq!(&stream[12..16], b"fmt ");
    assert_eq!(u32_at(&stream, 16), 16);
    assert_eq!(u16_at(&stream, 20), 1);
    assert_eq!(u16_at(&stream, 22), 1);
    assert_eq!(u32_at(&stream, 24), 8000);
    assert_eq!(u32_at(&stream, 28), 8000 * 4);
    assert_eq!(u16_at(&stream, 32), 4);
    assert_eq!(u16_at(&stream, 34), 32);
    assert_eq!(&stream[36..40], b"data");
    assert_eq!(u32_at(&stream, 40), 16);
    for (k, s) in samples.iter().enumerate() {
        assert_eq!(f32::from_bits(u32_at(&stream, 44 + 4 * k)), *s);
    }
}

/// Filling with a small buffer accumulates, across calls, exactly the
/// bytes one unbounded call delivers, and the final call returns zero.
#[test]
fn resumable_fill_matches_one_shot() {
    let samples: Vec<f32> = (0..50).map(|i| i as f32 * 0.01 - 0.25).collect();
    let mut one_shot = create_mono_datachunk(bits(&samples));
    let mut piecewise = create_mono_datachunk(bits(&samples));

    let mut big: Vec<u8> = vec![0u8; 512];
    let n = one_shot.fill(&mut big).expect("fill failed");
    assert_eq!(n, 8 + 50 * 4);
    let whole = big[..n].to_vec();

    let accumulated = drain_data(&mut piecewise, 13);
    assert_eq!(accumulated, whole);

    // Both records are exhausted: every further call keeps returning 0.
    let mut buf: Vec<u8> = vec![0u8; 64];
    assert_eq!(one_shot.fill(&mut buf).expect("fill failed"), 0);
    assert_eq!(piecewise.fill(&mut buf).expect("fill failed"), 0);
    assert_eq!(piecewise.fill(&mut buf).expect("fill failed"), 0);
}

/// Interleaving two channels alternates left and right; mismatched
/// lengths fail.
#[test]
fn stereo_interleave() {
    let left = [1.0f32, 2.0f32];
    let right = [3.0f32, 4.0f32];
    let mut dc = create_stereo_datachunk(bits(&left), bits(&right)).expect("interleave failed");
    assert_eq!(dc.len(), 4);
    let stream = drain_data(&mut dc, 64);
    assert_eq!(&stream[0..4], b"data");
    assert_eq!(u32_at(&stream, 4), 16);
    let decoded: Vec<f32> = (0..4).map(|k| f32::from_bits(u32_at(&stream, 8 + 4 * k))).collect();
    assert_eq!(decoded, vec![1.0f32, 3.0f32, 2.0f32, 4.0f32]);

    let bad = create_stereo_datachunk(bits(&left), bits(&[3.0f32]));
    assert_eq!(bad.unwrap_err(), WavError::ChannelMismatch);
}

#[test]
fn header_single_shot_bytes() {
    let mut hdr: WavHeader = Default::default();
    hdr.set_size(48);
    let mut buf: Vec<u8> = vec![0xAAu8; 16];
    assert_eq!(hdr.fill(&mut buf).expect("fill failed"), 12);
    assert_eq!(&buf[0..4], b"RIFF");
    assert_eq!(u32_at(&buf, 4), 48);
    assert_eq!(&buf[8..12], b"WAVE");
    // Bytes past the record are untouched.
    assert_eq!(&buf[12..16], &[0xAAu8; 4]);
    assert_eq!(hdr.fill(&mut buf).expect("fill failed"), 0);
}

#[test]
fn format_single_shot_bytes() {
    let mut fmt: FormatChunk = Default::default();
    fmt.set_number_channels(2);
    fmt.set_sample_rate(44100);
    fmt.set_byte_rate(44100 * 8);
    fmt.set_block_align(8);
    fmt.set_bits_sample(32);
    let mut buf: Vec<u8> = vec![0u8; 24];
    assert_eq!(fmt.fill(&mut buf).expect("fill failed"), 24);
    assert_eq!(&buf[0..4], b"fmt ");
    assert_eq!(u32_at(&buf, 4), 16);
    assert_eq!(u16_at(&buf, 8), 1);
    assert_eq!(u16_at(&buf, 10), 2);
    assert_eq!(u32_at(&buf, 12), 44100);
    assert_eq!(u32_at(&buf, 16), 44100 * 8);
    assert_eq!(u16_at(&buf, 20), 8);
    assert_eq!(u16_at(&buf, 22), 32);
    assert_eq!(fmt.fill(&mut buf).expect("fill failed"), 0);
}

/// A buffer below the minimum viable chunk is an error, distinct from the
/// end-of-record result, and has no effect.
#[test]
fn too_small_buffers_are_rejected() {
    let mut hdr: WavHeader = Default::default();
    let mut buf: Vec<u8> = vec![0u8; 11];
    assert_eq!(hdr.fill(&mut buf).unwrap_err(), WavError::BufferTooSmall);

    let mut fmt: FormatChunk = Default::default();
    let mut buf: Vec<u8> = vec![0u8; 23];
    assert_eq!(fmt.fill(&mut buf).unwrap_err(), WavError::BufferTooSmall);

    let mut dc = create_mono_datachunk(bits(&[0.5f32]));
    let mut buf: Vec<u8> = vec![0u8; 11];
    assert_eq!(dc.fill(&mut buf).unwrap_err(), WavError::BufferTooSmall);
    // The record is still intact and can be delivered afterwards.
    let mut buf: Vec<u8> = vec![0u8; 12];
    assert_eq!(dc.fill(&mut buf).expect("fill failed"), 12);
    assert_eq!(dc.fill(&mut buf).expect("fill failed"), 0);
}

#[test]
fn transcode_helpers_write_little_endian() {
    let mut out: Vec<u8> = vec![0xFFu8; 4];
    u16_to_u8(0x1234, &mut out);
    assert_eq!(out, vec![0x34, 0x12, 0xFF, 0xFF]);

    let mut out: Vec<u8> = vec![0u8; 4];
    u32_to_u8(0xA1B2C3D4, &mut out);
    assert_eq!(out, vec![0xD4, 0xC3, 0xB2, 0xA1]);

    let mut buf: Vec<u8> = vec![0u8; 6];
    let src: Vec<u8> = vec![9, 8, 7];
    assert_eq!(append_bytes(&src, &mut buf, 2), 3);
    assert_eq!(buf, vec![0, 0, 9, 8, 7, 0]);
    // A copy that does not fit is skipped but still reports the length.
    assert_eq!(append_bytes(&src, &mut buf, 4), 3);
    assert_eq!(buf, vec![0, 0, 9, 8, 7, 0]);

    let mut buf: Vec<u8> = vec![1u8, 2, 3];
    zero_u8_array(&mut buf);
    assert_eq!(buf, vec![0u8, 0, 0]);
}

/// A stereo container declares two channels, and its byte rate and block
/// alignment scale with the channel count.
#[test]
fn stereo_wav_format_fields() {
    let left = [0.5f32, -0.5f32];
    let right = [0.25f32, -0.25f32];
    let dc = create_stereo_datachunk(bits(&left), bits(&right)).expect("interleave failed");
    let mut wav = create_wav(dc, 44100, 32, 2);
    let stream = drain_wav(&mut wav, 4096);
    assert_eq!(stream.len(), 44 + 16);
    assert_eq!(u32_at(&stream, 4), 16 + 24 + 8);
    assert_eq!(u16_at(&stream, 22), 2);
    assert_eq!(u32_at(&stream, 24), 44100);
    assert_eq!(u32_at(&stream, 28), 2 * 44100 * 4);
    assert_eq!(u16_at(&stream, 32), 8);
    assert_eq!(u32_at(&stream, 40), 16);
}

/// The declared sizes follow the layout's invariants when a data block
/// is packaged as a container.
#[test]
fn mono_wav_size_fields() {
    let samples: Vec<f32> = vec![0.0; 100];
    let dc = create_mono_datachunk(bits(&samples));
    let mut wav = create_mono_wav(dc, 44100, 32);
    let stream = drain_wav(&mut wav, 4096);
    assert_eq!(stream.len(), 44 + 400);
    assert_eq!(u32_at(&stream, 4), 400 + 24 + 8);
    assert_eq!(u32_at(&stream, 28), 44100 * 4);
    assert_eq!(u16_at(&stream, 32), 4);
    assert_eq!(u32_at(&stream, 40), 400);
}
