//! The plucked-string synthesizer: a fixed-capacity ring of
//! single-precision sample bit patterns driven by a damped two-point
//! averaging feedback filter. The ring, the cursor and the tick counter
//! form a deterministic state machine; only `pluck` consumes randomness.

use vstd::prelude::*;

use crate::softfp::ap_double_div;
use crate::softfp::ap_double_mul;
use crate::softfp::ap_double_round_u32;
use crate::softfp::ap_double_to_single;
use crate::softfp::ap_single_add;
use crate::softfp::ap_single_lt;
use crate::softfp::ap_single_mul;
use crate::softfp::ap_single_sub;
use crate::softfp::double_div;
use crate::softfp::double_mul;
use crate::softfp::double_round_u32;
use crate::softfp::double_to_single;
use crate::softfp::single_add;
use crate::softfp::single_lt;
use crate::softfp::single_mul;
use crate::softfp::single_sub;
use crate::WavError;

verus! {

/// Bit pattern of the single-precision value one half, the averaging
/// factor of the feedback filter.
pub const HALF_BITS: u32 = 0x3F00_0000;

/// Bit pattern of the single-precision damping coefficient, the value
/// nine hundred ninety-four thousandths, which attenuates the ring's
/// energy a little on every tick.
pub const DAMP_BITS: u32 = 0x3F7E_76C9;

/// Bit pattern of the single-precision value three halves, subtracted
/// when a pluck maps a raw draw into the centered unit range.
pub const THREE_HALVES_BITS: u32 = 0x3FC0_0000;

/// The mathematical state of a synthesizer: the ring contents, the
/// cursor, the tick counter, and the two construction parameters.
pub ghost struct KsView {
    pub ring: Seq<u32>,
    pub cursor: int,
    pub ticks: int,
    pub rate: u64,
    pub freq: u64,
}

/// The new value written over the cursor cell on a tick: the average of
/// the cell and its successor, scaled by the damping coefficient.
pub open spec fn damp(a: u32, b: u32) -> u32 {
    single_mul(single_mul(single_add(a, b), HALF_BITS), DAMP_BITS)
}

/// One tick of the feedback filter: the cursor cell is replaced by the
/// damped average of itself and the next cell around the ring, the
/// cursor advances one cell with wraparound, and the tick counter grows
/// by one.
pub open spec fn step(v: KsView) -> KsView {
    let n = v.ring.len() as int;
    let nxt = (v.cursor + 1) % n;
    KsView {
        ring: v.ring.update(v.cursor, damp(v.ring[v.cursor], v.ring[nxt])),
        cursor: nxt,
        ticks: v.ticks + 1,
        ..v
    }
}

/// The state after `k` ticks.
pub open spec fn advance(v: KsView, k: nat) -> KsView
    decreases k,
{
    if k == 0 {
        v
    } else {
        step(advance(v, (k - 1) as nat))
    }
}

/// The sample read from a state: the value at the cursor.
pub open spec fn emitted_sample(v: KsView) -> u32 {
    v.ring[v.cursor]
}

/// The samples collected by ticking `k` times from `v`, reading the
/// cursor cell after each tick.
pub open spec fn pluck_trace(v: KsView, k: nat) -> Seq<u32> {
    Seq::new(k, |i: int| emitted_sample(advance(v, (i + 1) as nat)))
}

/// The ring length for a frequency and a sample rate, both given as
/// double-precision bit patterns: their quotient rounded to the nearest
/// integer.
pub open spec fn ring_len_spec(rate_bits: u64, freq_bits: u64) -> u32 {
    double_round_u32(double_div(rate_bits, freq_bits))
}

/// The number of driving ticks for a run length in seconds and a sample
/// rate, both given as double-precision bit patterns: their product
/// rounded to the nearest integer. The drivers emit one sample more than
/// this count, the inclusive counting convention of the tone generator.
pub open spec fn pluck_sample_count(run_bits: u64, rate_bits: u64) -> u32 {
    double_round_u32(double_mul(rate_bits, run_bits))
}

/// The cell value a pluck builds from one raw draw: the draw's top
/// twenty-three bits become fresh mantissa bits of a pattern in the
/// unit-wide range starting at one, and three halves is subtracted, so
/// the value lands in the centered unit-wide range.
pub open spec fn pluck_sample(draw: u32) -> u32 {
    single_sub(0x3F80_0000u32 | (draw >> 9), THREE_HALVES_BITS)
}

/// Whether a ring's cells are, one for one, the pluck images of a
/// sequence of raw draws.
pub open spec fn plucked_from(ring: Seq<u32>, draws: Seq<u32>) -> bool {
    &&& draws.len() == ring.len()
    &&& forall|i: int| 0 <= i < draws.len() ==> ring[i] == pluck_sample(draws[i])
}

/// A plucked-string synthesizer session: the ring of sample bit
/// patterns, the cursor, the tick counter, the construction parameters,
/// and the injected random source.
#[derive(Debug)]
pub struct KarplusStrong {
    ring: Vec<u32>,
    ring_first: usize,
    sample_rate_bits: u64,
    frequency_bits: u64,
    ticks: u64,
    rng: rand::rngs::StdRng,
}

impl View for KarplusStrong {
    type V = KsView;

    closed spec fn view(&self) -> KsView {
        KsView {
            ring: self.ring@,
            cursor: self.ring_first as int,
            ticks: self.ticks as int,
            rate: self.sample_rate_bits,
            freq: self.frequency_bits,
        }
    }
}

impl KarplusStrong {
    /// Well-formedness: at least two cells, and the cursor inside the
    /// ring.
    pub open spec fn wf(&self) -> bool {
        &&& self@.ring.len() >= 2
        &&& 0 <= self@.cursor < self@.ring.len()
    }

    /// Builds a string for a frequency and sample rate, both given as
    /// double-precision bit patterns, with all cells zero, the cursor at
    /// the first cell and the tick counter at zero. A ring of fewer than
    /// two cells is rejected.
    pub fn with_frequency(freq_bits: u64, rate_bits: u64, rng: rand::rngs::StdRng) -> (r: Result<
        KarplusStrong,
        WavError,
    >)
        ensures
            r is Ok <==> ring_len_spec(rate_bits, freq_bits) >= 2,
            r is Err ==> r == Err::<KarplusStrong, WavError>(WavError::RingTooSmall),
            r matches Ok(ks) ==> {
                &&& ks.wf()
                &&& ks@.ring == Seq::new(ring_len_spec(rate_bits, freq_bits) as nat, |i: int| 0u32)
                &&& ks@.cursor == 0
                &&& ks@.ticks == 0
                &&& ks@.rate == rate_bits
                &&& ks@.freq == freq_bits
            },
    {
        let size32: u32 = ap_double_round_u32(ap_double_div(rate_bits, freq_bits));
        if size32 < 2 {
            return Err(WavError::RingTooSmall);
        }
        let size: usize = size32 as usize;
        let mut ring: Vec<u32> = Vec::new();
        let mut i: usize = 0;
        while i < size
            invariant
                i <= size,
                ring@ =~= Seq::new(i as nat, |j: int| 0u32),
            decreases size - i,
        {
            ring.push(0);
            i = i + 1;
        }
        proof {
            assert(ring@ =~= Seq::new(size as nat, |j: int| 0u32));
        }
        Ok(
            KarplusStrong {
                ring,
                ring_first: 0,
                sample_rate_bits: rate_bits,
                frequency_bits: freq_bits,
                ticks: 0,
                rng,
            },
        )
    }

    /// Recomputes the ring length for a new frequency against the
    /// construction-time sample rate and resizes the ring to it: cells
    /// that survive keep their values, new cells are zero until the next
    /// pluck, and a cursor left beyond the end returns to the first
    /// cell. The tick counter is not reset, and no pluck happens. A new
    /// length of fewer than two cells is rejected and nothing changes.
    pub fn set_frequency(&mut self, freq_bits: u64) -> (r: Result<(), WavError>)
        requires
            old(self).wf(),
        ensures
            final(self).wf(),
            r is Ok <==> ring_len_spec(old(self)@.rate, freq_bits) >= 2,
            r is Err ==> r == Err::<(), WavError>(WavError::RingTooSmall) && *final(self) == *old(
                self,
            ),
            r is Ok ==> ({
                let n = ring_len_spec(old(self)@.rate, freq_bits) as int;
                &&& final(self)@.ring.len() == n
                &&& forall|i: int|
                    0 <= i < n && i < old(self)@.ring.len() ==> final(self)@.ring[i] == old(
                        self,
                    )@.ring[i]
                &&& forall|i: int|
                    old(self)@.ring.len() <= i < n ==> final(self)@.ring[i] == 0
                &&& final(self)@.cursor == (if old(self)@.cursor < n {
                    old(self)@.cursor
                } else {
                    0
                })
                &&& final(self)@.ticks == old(self)@.ticks
                &&& final(self)@.rate == old(self)@.rate
                &&& final(self)@.freq == freq_bits
            }),
    {
        let size32: u32 = ap_double_round_u32(ap_double_div(self.sample_rate_bits, freq_bits));
        if size32 < 2 {
            return Err(WavError::RingTooSmall);
        }
        let size: usize = size32 as usize;
        while self.ring.len() < size
            invariant
                self.ring.len() <= size || self.ring.len() == old(self).ring.len(),
                self.ring_first == old(self).ring_first,
                self.sample_rate_bits == old(self).sample_rate_bits,
                self.frequency_bits == old(self).frequency_bits,
                self.ticks == old(self).ticks,
                self.rng == old(self).rng,
                old(self).ring.len() <= self.ring.len(),
                forall|i: int|
                    0 <= i < old(self).ring.len() ==> self.ring@[i] == old(self).ring@[i],
                forall|i: int| old(self).ring.len() <= i < self.ring.len() ==> self.ring@[i] == 0,
            decreases size - self.ring.len(),
        {
            self.ring.push(0);
        }
        if self.ring.len() > size {
            self.ring.truncate(size);
        }
        if self.ring_first >= size {
            self.ring_first = 0;
        }
        self.frequency_bits = freq_bits;
        Ok(())
    }

    /// Overwrites every cell with an independently drawn random value:
    /// twenty-three fresh mantissa bits build a pattern in the unit-wide
    /// range starting at one, and three halves is subtracted, so each
    /// cell lands in the centered unit-wide range. The cursor and the
    /// tick counter are untouched; a pluck may happen at any time,
    /// including mid-run.
    pub fn pluck(&mut self)
        requires
            old(self).wf(),
        ensures
            final(self).wf(),
            final(self)@.ring.len() == old(self)@.ring.len(),
            final(self)@.cursor == old(self)@.cursor,
            final(self)@.ticks == old(self)@.ticks,
            final(self)@.rate == old(self)@.rate,
            final(self)@.freq == old(self)@.freq,
            exists|draws: Seq<u32>| plucked_from(final(self)@.ring, draws),
    {
        let n = self.ring.len();
        let ghost mut draws: Seq<u32> = Seq::empty();
        let mut i: usize = 0;
        while i < n
            invariant
                i <= n,
                self.ring.len() == n,
                n == old(self).ring.len(),
                self.ring_first == old(self).ring_first,
                self.sample_rate_bits == old(self).sample_rate_bits,
                self.frequency_bits == old(self).frequency_bits,
                self.ticks == old(self).ticks,
                draws.len() == i,
                forall|j: int| #![auto] 0 <= j < i ==> self.ring@[j] == pluck_sample(draws[j]),
            decreases n - i,
        {
            let draw = crate::rng::rng_next(&mut self.rng);
            let unit_bits: u32 = 0x3F80_0000u32 | (draw >> 9);
            let sample = ap_single_sub(unit_bits, THREE_HALVES_BITS);
            self.ring.set(i, sample);
            proof {
                draws = draws + seq![draw];
            }
            i = i + 1;
        }
        proof {
            assert(plucked_from(self@.ring, draws));
        }
    }

    /// The value currently under the cursor; nothing is mutated.
    pub fn sample(&mut self) -> (r: u32)
        requires
            old(self).wf(),
        ensures
            *final(self) == *old(self),
            r == emitted_sample(old(self)@),
    {
        self.ring[self.ring_first]
    }

    /// One tick of the feedback filter, exactly the `step` transition on
    /// the state.
    pub fn tick_simulation(&mut self)
        requires
            old(self).wf(),
            old(self)@.ticks < u64::MAX,
        ensures
            final(self).wf(),
            final(self)@ == step(old(self)@),
    {
        let n = self.ring.len();
        let next_index = if self.ring_first + 1 >= n {
            0
        } else {
            self.ring_first + 1
        };
        proof {
            assert(next_index as int == (self.ring_first as int + 1) % (n as int)) by {
                if self.ring_first + 1 >= n {
                    vstd::arithmetic::div_mod::lemma_mod_self_0(n as int);
                } else {
                    vstd::arithmetic::div_mod::lemma_small_mod(
                        (self.ring_first + 1) as nat,
                        n as nat,
                    );
                }
            }
        }
        let second = self.ring[next_index];
        let first_val = self.ring[self.ring_first];
        let averaged = ap_single_mul(ap_single_add(first_val, second), HALF_BITS);
        let damped = ap_single_mul(averaged, DAMP_BITS);
        self.ring.set(self.ring_first, damped);
        self.ring_first = next_index;
        self.ticks = self.ticks + 1;
    }

    /// The number of ticks since construction.
    pub fn ticks(&self) -> (r: u64)
        ensures
            r == self@.ticks,
    {
        self.ticks
    }

    /// The current ring length.
    pub fn ring_size(&self) -> (r: usize)
        ensures
            r == self@.ring.len(),
    {
        self.ring.len()
    }
}

/// Samples one decaying pluck: builds a string, plucks it once, then
/// ticks and reads repeatedly. One sample more than the rounded product
/// of run length and sample rate is emitted, the inclusive counting
/// convention shared with the tone generator. The output is the exact
/// deterministic trace of the feedback filter from some freshly plucked
/// ring.
pub fn generate_one_pluck_sample(
    run_bits: u64,
    freq_bits: u64,
    rate_bits: u64,
    rng: rand::rngs::StdRng,
) -> (r: Result<Vec<u32>, WavError>)
    ensures
        r is Ok <==> ring_len_spec(rate_bits, freq_bits) >= 2,
        r is Err ==> r == Err::<Vec<u32>, WavError>(WavError::RingTooSmall),
        r matches Ok(v) ==> {
            &&& v@.len() == pluck_sample_count(run_bits, rate_bits) + 1
            &&& exists|init: Seq<u32>, draws: Seq<u32>|
                #![auto]
                plucked_from(init, draws) && init.len() == ring_len_spec(rate_bits, freq_bits)
                    && v@ == pluck_trace(
                    KsView {
                        ring: init,
                        cursor: 0,
                        ticks: 0,
                        rate: rate_bits,
                        freq: freq_bits,
                    },
                    (pluck_sample_count(run_bits, rate_bits) + 1) as nat,
                )
        },
{
    let mut ks = match KarplusStrong::with_frequency(freq_bits, rate_bits, rng) {
        Ok(ks) => ks,
        Err(e) => {
            return Err(e);
        },
    };
    ks.pluck();
    let num: u32 = ap_double_round_u32(ap_double_mul(rate_bits, run_bits));
    let ghost v0 = ks@;
    let mut out: Vec<u32> = Vec::new();
    let mut i: u64 = 0;
    while i <= num as u64
        invariant
            i <= num as u64 + 1,
            ks.wf(),
            v0.ticks == 0,
            v0.ring.len() == ring_len_spec(rate_bits, freq_bits),
            v0.ring.len() >= 2,
            v0.cursor == 0,
            v0.rate == rate_bits,
            v0.freq == freq_bits,
            ks@ == advance(v0, i as nat),
            out@ == pluck_trace(v0, i as nat),
        decreases num as u64 - i + 1,
    {
        proof {
            lemma_advance_ticks(v0, i as nat);
        }
        ks.tick_simulation();
        let s = ks.sample();
        out.push(s);
        proof {
            assert(out@ =~= pluck_trace(v0, (i + 1) as nat));
        }
        i = i + 1;
    }
    proof {
        let draws = choose|d: Seq<u32>| plucked_from(v0.ring, d);
        assert(plucked_from(v0.ring, draws) && v0.ring.len() == ring_len_spec(
            rate_bits,
            freq_bits,
        ) && out@ == pluck_trace(
            KsView { ring: v0.ring, cursor: 0, ticks: 0, rate: rate_bits, freq: freq_bits },
            (pluck_sample_count(run_bits, rate_bits) + 1) as nat,
        ));
    }
    Ok(out)
}

/// Ticking keeps the ring length and raises the tick counter by exactly
/// the number of ticks taken.
pub proof fn lemma_advance_ticks(v: KsView, k: nat)
    requires
        0 <= v.cursor < v.ring.len(),
    ensures
        advance(v, k).ticks == v.ticks + k,
        advance(v, k).ring.len() == v.ring.len(),
        0 <= advance(v, k).cursor < v.ring.len(),
        advance(v, k).rate == v.rate,
        advance(v, k).freq == v.freq,
    decreases k,
{
    if k > 0 {
        lemma_advance_ticks(v, (k - 1) as nat);
    }
}

/// One iteration of the self-retriggering driver, relating the state
/// before a sample to the state after it: the filter ticks, the sample
/// is read at the new cursor, and exactly when it lies strictly below
/// the threshold the ring is re-seeded by a pluck, keeping its length,
/// cursor and tick counter.
pub open spec fn step_with_threshold(vmid: KsView, thresh: u32, s: u32, vend: KsView) -> bool {
    let v1 = step(vmid);
    &&& s == emitted_sample(v1)
    &&& if single_lt(s, thresh) {
        &&& exists|draws: Seq<u32>| plucked_from(vend.ring, draws)
        &&& vend.ring.len() == v1.ring.len()
        &&& vend.cursor == v1.cursor
        &&& vend.ticks == v1.ticks
        &&& vend.rate == v1.rate
        &&& vend.freq == v1.freq
    } else {
        vend == v1
    }
}

/// Whether the sample sequence `out` can take the driver from state `v0`
/// to state `vend`, one `step_with_threshold` iteration per sample.
pub open spec fn threshold_reaches(v0: KsView, thresh: u32, out: Seq<u32>, vend: KsView) -> bool
    decreases out.len(),
{
    if out.len() == 0 {
        vend == v0
    } else {
        exists|vmid: KsView|
            #![auto]
            threshold_reaches(v0, thresh, out.drop_last(), vmid) && step_with_threshold(
                vmid,
                thresh,
                out.last(),
                vend,
            )
    }
}

/// Samples a self-retriggering pluck: as `generate_one_pluck_sample`,
/// but after each sample is read, a sample strictly below the threshold
/// (given as a double-precision bit pattern and narrowed once to single
/// precision) re-plucks the string before the next tick. The output is
/// a `threshold_reaches` trace from some freshly plucked ring: every
/// sample is read off a tick of the filter, and exactly the
/// sub-threshold samples are followed by a re-seeded ring.
pub fn generate_ks_threshold(
    run_bits: u64,
    freq_bits: u64,
    rate_bits: u64,
    thresh_bits: u64,
    rng: rand::rngs::StdRng,
) -> (r: Result<Vec<u32>, WavError>)
    ensures
        r is Ok <==> ring_len_spec(rate_bits, freq_bits) >= 2,
        r is Err ==> r == Err::<Vec<u32>, WavError>(WavError::RingTooSmall),
        r matches Ok(v) ==> {
            &&& v@.len() == pluck_sample_count(run_bits, rate_bits) + 1
            &&& exists|init: Seq<u32>, draws: Seq<u32>, vend: KsView|
                #![auto]
                plucked_from(init, draws) && init.len() == ring_len_spec(rate_bits, freq_bits)
                    && threshold_reaches(
                    KsView {
                        ring: init,
                        cursor: 0,
                        ticks: 0,
                        rate: rate_bits,
                        freq: freq_bits,
                    },
                    double_to_single(thresh_bits),
                    v@,
                    vend,
                )
        },
{
    let mut ks = match KarplusStrong::with_frequency(freq_bits, rate_bits, rng) {
        Ok(ks) => ks,
        Err(e) => {
            return Err(e);
        },
    };
    ks.pluck();
    let ghost v0 = ks@;
    let thresh32: u32 = ap_double_to_single(thresh_bits);
    let num: u32 = ap_double_round_u32(ap_double_mul(rate_bits, run_bits));
    let mut out: Vec<u32> = Vec::new();
    let mut i: u64 = 0;
    while i <= num as u64
        invariant
            i <= num as u64 + 1,
            ks.wf(),
            ks@.ticks == i,
            out@.len() == i,
            thresh32 == double_to_single(thresh_bits),
            v0.ticks == 0,
            threshold_reaches(v0, thresh32, out@, ks@),
        decreases num as u64 - i + 1,
    {
        let ghost vmid = ks@;
        let ghost prefix = out@;
        ks.tick_simulation();
        let s = ks.sample();
        if ap_single_lt(s, thresh32) {
            ks.pluck();
        }
        out.push(s);
        proof {
            assert(step_with_threshold(vmid, thresh32, s, ks@));
            assert(out@.drop_last() =~= prefix);
            assert(out@.last() == s);
            assert(threshold_reaches(v0, thresh32, out@, ks@));
        }
        i = i + 1;
    }
    proof {
        let draws = choose|d: Seq<u32>| plucked_from(v0.ring, d);
        assert(plucked_from(v0.ring, draws) && v0.ring.len() == ring_len_spec(
            rate_bits,
            freq_bits,
        ) && threshold_reaches(
            KsView { ring: v0.ring, cursor: 0, ticks: 0, rate: rate_bits, freq: freq_bits },
            double_to_single(thresh_bits),
            out@,
            ks@,
        ));
    }
    Ok(out)
}

} // verus!
