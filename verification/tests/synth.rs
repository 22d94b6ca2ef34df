use rand::RngCore;
use rand::SeedableRng;

use wavsynth::ksstring::generate_ks_threshold;
use wavsynth::ksstring::generate_one_pluck_sample;
use wavsynth::ksstring::KarplusStrong;
use wavsynth::rng::rng_from_entropy;
use wavsynth::rng::rng_from_seed;
use wavsynth::tone::cycle_sample_count;
use wavsynth::tone::generate_tone_samples;
use wavsynth::tone::tile_cycle;
use wavsynth::WavError;

const RATE: f64 = 8000.0;
const FREQ: f64 = 800.0;

fn floats(v: &[u32]) -> Vec<f32> {
    v.iter().map(|b| f32::from_bits(*b)).collect()
}

/// A step-for-step reimplementation of the plucked-string run with the
/// machine's own single-precision arithmetic, used to check that the
/// library's software arithmetic matches the hardware bit for bit.
fn simulate_pluck(seed: u64, n: usize, ticks: u64) -> Vec<f32> {
    let mut rng = rand::rngs::StdRng::seed_from_u64(seed);
    let mut ring: Vec<f32> = (0..n)
        .map(|_| {
            let draw = rng.next_u32();
            f32::from_bits(0x3F80_0000 | (draw >> 9)) - 1.5f32
        })
        .collect();
    let mut cur: usize = 0;
    let mut out: Vec<f32> = Vec::new();
    for _ in 0..=ticks {
        let nxt = (cur + 1) % n;
        ring[cur] = (ring[cur] + ring[nxt]) * 0.5f32 * 0.994f32;
        cur = nxt;
        out.push(ring[cur]);
    }
    out
}

/// Ring size determinism: the ring length is the rounded quotient of
/// sample rate and frequency, and a quotient that rounds below two is
/// rejected.
#[test]
fn ring_size_determinism() {
    let ks = KarplusStrong::with_frequency(441.0f64.to_bits(), 44100.0f64.to_bits(), rng_from_seed(1))
        .expect("construction failed");
    assert_eq!(ks.ring_size(), 100);

    let same = KarplusStrong::with_frequency(44100.0f64.to_bits(), 44100.0f64.to_bits(), rng_from_seed(1));
    assert_eq!(same.unwrap_err(), WavError::RingTooSmall);
}

#[test]
fn tick_advances_cursor_and_counter() {
    let mut ks = KarplusStrong::with_frequency(FREQ.to_bits(), RATE.to_bits(), rng_from_seed(7))
        .expect("construction failed");
    assert_eq!(ks.ticks(), 0);
    ks.pluck();
    assert_eq!(ks.ticks(), 0);
    ks.tick_simulation();
    ks.tick_simulation();
    ks.tick_simulation();
    assert_eq!(ks.ticks(), 3);
    // An unplucked ring is all zero, and the damped average of zeros is
    // zero, so a fresh string ticks to silence.
    let mut quiet = KarplusStrong::with_frequency(FREQ.to_bits(), RATE.to_bits(), rng_from_seed(7))
        .expect("construction failed");
    quiet.tick_simulation();
    assert_eq!(quiet.sample(), 0);
}

#[test]
fn set_frequency_resizes_ring() {
    let mut ks = KarplusStrong::with_frequency(FREQ.to_bits(), RATE.to_bits(), rng_from_seed(3))
        .expect("construction failed");
    assert_eq!(ks.ring_size(), 10);
    ks.set_frequency(400.0f64.to_bits()).expect("resize failed");
    assert_eq!(ks.ring_size(), 20);
    // A frequency at the sample rate would shrink the ring below two
    // cells: rejected, and the ring keeps its length.
    assert_eq!(ks.set_frequency(RATE.to_bits()).unwrap_err(), WavError::RingTooSmall);
    assert_eq!(ks.ring_size(), 20);
}

/// The library's sample stream matches a hardware single-precision
/// reimplementation bit for bit: same draws, same ring recurrence, same
/// damping.
#[test]
fn pluck_matches_hardware_arithmetic() {
    let out = generate_one_pluck_sample(
        0.01f64.to_bits(),
        FREQ.to_bits(),
        RATE.to_bits(),
        rng_from_seed(42),
    )
    .expect("generation failed");
    assert_eq!(out.len(), 81);
    let expected = simulate_pluck(42, 10, 80);
    for (got, want) in out.iter().zip(expected.iter()) {
        assert_eq!(*got, want.to_bits());
    }
}

#[test]
fn pluck_is_deterministic_per_seed() {
    let a = generate_one_pluck_sample(0.01f64.to_bits(), FREQ.to_bits(), RATE.to_bits(), rng_from_seed(5))
        .expect("generation failed");
    let b = generate_one_pluck_sample(0.01f64.to_bits(), FREQ.to_bits(), RATE.to_bits(), rng_from_seed(5))
        .expect("generation failed");
    let c = generate_one_pluck_sample(0.01f64.to_bits(), FREQ.to_bits(), RATE.to_bits(), rng_from_seed(6))
        .expect("generation failed");
    assert_eq!(a, b);
    assert_ne!(a, c);
}

#[test]
fn pluck_from_entropy_has_requested_length() {
    let out = generate_one_pluck_sample(0.01f64.to_bits(), FREQ.to_bits(), RATE.to_bits(), rng_from_entropy())
        .expect("generation failed");
    assert_eq!(out.len(), 81);
}

#[test]
fn pluck_rejects_too_high_frequency() {
    let r = generate_one_pluck_sample(0.01f64.to_bits(), RATE.to_bits(), RATE.to_bits(), rng_from_seed(1));
    assert_eq!(r.unwrap_err(), WavError::RingTooSmall);
}

/// Damping monotonicity: over any window of one full ring rotation the
/// energy of the emitted samples never grows.
#[test]
fn damping_is_monotone_over_rotations() {
    let out = generate_one_pluck_sample(0.05f64.to_bits(), FREQ.to_bits(), RATE.to_bits(), rng_from_seed(11))
        .expect("generation failed");
    let s = floats(&out);
    let n = 10;
    let energy =
        |j: usize| -> f64 { s[j..j + n].iter().map(|v| (*v as f64) * (*v as f64)).sum() };
    for j in 0..s.len() - 2 * n {
        assert!(energy(j + n) <= energy(j) + 1e-12);
    }
}

/// Threshold re-excitation: each sample strictly below the threshold
/// triggers a pluck before the next tick, so the tone never settles
/// below the threshold for good. A single sub-threshold sample does not
/// always stand alone: the comparison is signed, and a freshly plucked
/// ring emits negative draws about half the time, so short sub-threshold
/// runs do occur; but every such run ends within a couple of rotations
/// of the re-seeded ring.
#[test]
fn threshold_repluck_sustains_the_tone() {
    let thresh = 0.001f64;
    let out = generate_ks_threshold(
        0.5f64.to_bits(),
        FREQ.to_bits(),
        RATE.to_bits(),
        thresh.to_bits(),
        rng_from_seed(2),
    )
    .expect("generation failed");
    assert_eq!(out.len(), 4001);
    let s = floats(&out);
    let n = 10usize;
    let below: Vec<bool> = s.iter().map(|v| *v < thresh as f32).collect();
    assert!(below.iter().any(|b| *b), "no sample ever fell below the threshold");
    let mut longest_run = 0usize;
    let mut run = 0usize;
    for b in below.iter() {
        if *b {
            run += 1;
            longest_run = longest_run.max(run);
        } else {
            run = 0;
        }
    }
    assert!(longest_run >= 1 && longest_run < 2 * n);
    // Without re-excitation the tail would have decayed for good; here
    // the last stretch still swings above the threshold.
    assert!(s[s.len() - 100..].iter().any(|v| *v > thresh as f32));

    // A plain pluck of the same length decays to a quieter tail than the
    // re-excited run keeps.
    let plain = generate_one_pluck_sample(0.5f64.to_bits(), FREQ.to_bits(), RATE.to_bits(), rng_from_seed(2))
        .expect("generation failed");
    let p = floats(&plain);
    let tail_peak = |v: &[f32]| v.iter().map(|x| x.abs()).fold(0.0f32, f32::max);
    assert!(tail_peak(&p[p.len() - 100..]) < tail_peak(&s[s.len() - 100..]));
}

/// A threshold below every possible sample never triggers a pluck, so
/// the run equals the plain single-pluck run drawn from the same seed.
#[test]
fn threshold_below_everything_is_a_plain_pluck() {
    let with_thresh = generate_ks_threshold(
        0.02f64.to_bits(),
        FREQ.to_bits(),
        RATE.to_bits(),
        (-10.0f64).to_bits(),
        rng_from_seed(9),
    )
    .expect("generation failed");
    let plain = generate_one_pluck_sample(0.02f64.to_bits(), FREQ.to_bits(), RATE.to_bits(), rng_from_seed(9))
        .expect("generation failed");
    assert_eq!(with_thresh, plain);
}

/// Tone periodicity: one cycle table holds the rounded-down quotient of
/// sample rate and frequency, passes through zero at its start and at
/// its half index, and tiles with a wrapping index.
#[test]
fn tone_cycle_and_tiling() {
    assert_eq!(cycle_sample_count(FREQ.to_bits(), RATE.to_bits()), 10);

    // One cycle, built by the documented formula.
    let samples_sine = RATE / FREQ;
    let half_wave = samples_sine / 2.0;
    let cycle: Vec<u32> = (0..10)
        .map(|i| (((i as f64 * std::f64::consts::PI) / half_wave).sin() as f32).to_bits())
        .collect();
    let vals = floats(&cycle);
    assert_eq!(vals[0], 0.0);
    assert!(vals[5].abs() < 1e-6);
    assert!(vals[4] > 0.0 && vals[6] < 0.0);

    let out = generate_tone_samples(&cycle, 0.01f64.to_bits(), RATE.to_bits())
        .expect("tiling failed");
    assert_eq!(out.len(), 81);
    for (k, v) in out.iter().enumerate() {
        assert_eq!(*v, cycle[k % 10]);
    }
}

#[test]
fn tiling_rejects_an_empty_cycle() {
    let empty: Vec<u32> = Vec::new();
    assert_eq!(tile_cycle(&empty, 5).unwrap_err(), WavError::EmptyCycle);
    let one: Vec<u32> = vec![7];
    assert_eq!(tile_cycle(&one, 3).expect("tiling failed"), vec![7, 7, 7]);
}
