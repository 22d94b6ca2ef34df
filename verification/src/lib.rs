use vstd::prelude::*;

pub mod datachunk;
pub mod formatchunk;
pub mod ksstring;
pub mod rng;
pub mod softfp;
pub mod tone;
pub mod util;
pub mod wav;
pub mod wavheader;

verus! {

/// Errors surfaced by the synthesizer and the container encoder.
///
/// `BufferTooSmall` is distinct from the end-of-record result of the
/// `fill` methods, so a caller cannot mistake "buffer too small" for
/// "done". `RingTooSmall` rejects a ring of fewer than two cells,
/// `ChannelMismatch` rejects stereo channels of unequal length, and
/// `EmptyCycle` rejects tiling an empty cycle table.
#[derive(Debug, Clone, Copy, PartialEq, Eq, Structural)]
pub enum WavError {
    BufferTooSmall,
    RingTooSmall,
    ChannelMismatch,
    EmptyCycle,
}

} // verus!
