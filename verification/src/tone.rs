//! The periodic tone generator's verified half: the sample counts
//! derived from frequency, run length and sample rate, and the tiling of
//! a precomputed single-cycle table over the requested duration by a
//! wrapping index. Computing the table's own values is transcendental
//! work whose results differ from machine to machine, so the table is
//! built outside and handed in.

use vstd::prelude::*;

use crate::softfp::ap_double_div;
use crate::softfp::ap_double_floor_u32;
use crate::softfp::ap_double_mul;
use crate::softfp::double_div;
use crate::softfp::double_floor_u32;
use crate::softfp::double_mul;
use crate::WavError;

verus! {

/// The length of one cycle table for a frequency and a sample rate, both
/// given as double-precision bit patterns: their quotient rounded toward
/// negative infinity.
pub open spec fn cycle_len_spec(rate_bits: u64, freq_bits: u64) -> u32 {
    double_floor_u32(double_div(rate_bits, freq_bits))
}

/// The nominal sample count for a run length in seconds and a sample
/// rate, both given as double-precision bit patterns: their product
/// rounded toward negative infinity. The generator emits one sample more
/// than this, the inclusive counting convention shared with the
/// plucked-string drivers.
pub open spec fn tone_count_spec(run_bits: u64, rate_bits: u64) -> u32 {
    double_floor_u32(double_mul(run_bits, rate_bits))
}

/// The length of one cycle table: the sample rate divided by the
/// frequency, rounded down.
pub fn cycle_sample_count(freq_bits: u64, rate_bits: u64) -> (n: u32)
    ensures
        n == cycle_len_spec(rate_bits, freq_bits),
{
    ap_double_floor_u32(ap_double_div(rate_bits, freq_bits))
}

/// Repeats `cycle` with a wrapping index until `count` samples are
/// produced. An empty cycle table is rejected.
pub fn tile_cycle<T: Copy>(cycle: &Vec<T>, count: u64) -> (r: Result<Vec<T>, WavError>)
    ensures
        r is Ok <==> cycle.len() != 0,
        r is Err ==> r == Err::<Vec<T>, WavError>(WavError::EmptyCycle),
        r matches Ok(v) ==> {
            &&& v@.len() == count
            &&& forall|k: int| 0 <= k < count ==> v@[k] == cycle@[k % (cycle.len() as int)]
        },
{
    if cycle.len() == 0 {
        return Err(WavError::EmptyCycle);
    }
    let n = cycle.len();
    let mut out: Vec<T> = Vec::new();
    let mut cycle_index: usize = 0;
    let mut i: u64 = 0;
    while i < count
        invariant
            i <= count,
            n == cycle.len(),
            n >= 1,
            cycle_index < n,
            cycle_index as int == i as int % n as int,
            out@.len() == i,
            forall|k: int| 0 <= k < i ==> out@[k] == cycle@[k % (n as int)],
        decreases count - i,
    {
        out.push(cycle[cycle_index]);
        proof {
            let ni = n as int;
            let q = i as int / ni;
            vstd::arithmetic::div_mod::lemma_fundamental_div_mod(i as int, ni);
            vstd::arithmetic::mul::lemma_mul_is_commutative(ni, q);
            if cycle_index + 1 == n {
                vstd::arithmetic::mul::lemma_mul_is_distributive_add(ni, q, 1);
                vstd::arithmetic::mul::lemma_mul_is_commutative(ni, q + 1);
                vstd::arithmetic::div_mod::lemma_fundamental_div_mod_converse(
                    i as int + 1,
                    ni,
                    q + 1,
                    0,
                );
            } else {
                vstd::arithmetic::div_mod::lemma_fundamental_div_mod_converse(
                    i as int + 1,
                    ni,
                    q,
                    cycle_index as int + 1,
                );
            }
        }
        if cycle_index + 1 >= n {
            cycle_index = 0;
        } else {
            cycle_index = cycle_index + 1;
        }
        i = i + 1;
    }
    Ok(out)
}

/// Tiles a precomputed cycle table to the requested duration: one sample
/// more than the rounded-down product of run length and sample rate, the
/// inclusive counting convention shared with the plucked-string drivers.
pub fn generate_tone_samples(cycle: &Vec<u32>, run_bits: u64, rate_bits: u64) -> (r: Result<
    Vec<u32>,
    WavError,
>)
    ensures
        r is Ok <==> cycle.len() != 0,
        r is Err ==> r == Err::<Vec<u32>, WavError>(WavError::EmptyCycle),
        r matches Ok(v) ==> {
            &&& v@.len() == tone_count_spec(run_bits, rate_bits) + 1
            &&& forall|k: int| 0 <= k < v@.len() ==> v@[k] == cycle@[k % (cycle.len() as int)]
        },
{
    let total: u32 = ap_double_floor_u32(ap_double_mul(run_bits, rate_bits));
    tile_cycle(cycle, total as u64 + 1)
}

} // verus!
