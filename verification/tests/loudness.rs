use lkfs::loudness::{block_loudness, Loudness};
use lkfs::stats::Stats;

fn bits(xs: &[f64]) -> Vec<u64> {
    xs.iter().map(|x| x.to_bits()).collect()
}

#[test]
fn block_loudness_matches_the_formula() {
    let powers = [0.03, 0.05, 0.002, 0.004, 0.011];
    let weights = [1.0, 1.0, 1.0, 1.41, 1.41];

    let mut sum = 0.0f64;
    for i in 0..5 {
        sum += weights[i] * powers[i];
    }
    let expected = -0.691 + 10.0 * libm::log10(sum);

    let produced = block_loudness(&bits(&powers), &bits(&weights));
    assert_eq!(f64::from_bits(produced), expected);
}

#[test]
fn gated_loudness_of_uniform_blocks() {
    // Identical loud blocks: both gates keep everything and the result is
    // the loudness of any one block.
    let weights = bits(&[1.0, 1.0, 1.0, 1.41, 1.41]);
    let block = bits(&[0.03, 0.05, 0.002, 0.004, 0.011]);
    let blocks: Vec<Vec<u64>> = (0..24).map(|_| block.clone()).collect();

    let produced = Loudness::from_gated_powers(&blocks, &weights);
    let single = block_loudness(&block, &weights);
    // The mean of identical blocks need not be bit-identical to the block
    // (sums round), so compare loudness values loosely.
    assert!(approx::AbsDiffEq::abs_diff_eq(
        &f64::from_bits(produced),
        &f64::from_bits(single),
        1e-9
    ));
}

#[test]
fn empty_input_yields_nan() {
    // With no blocks at all, the gated mean divides zero by zero: the
    // documented degenerate outcome is a NaN.
    let weights = bits(&[1.0]);
    let blocks: Vec<Vec<u64>> = Vec::new();
    let produced = Loudness::from_gated_powers(&blocks, &weights);
    assert!(f64::from_bits(produced).is_nan());
}

#[test]
fn all_silent_input_yields_nan() {
    // Silent blocks have loudness -infinity, which the absolute gate
    // drops; nothing remains to average.
    let weights = bits(&[1.0, 1.0]);
    let blocks: Vec<Vec<u64>> = (0..8).map(|_| bits(&[0.0, 0.0])).collect();
    let produced = Loudness::from_gated_powers(&blocks, &weights);
    assert!(f64::from_bits(produced).is_nan());
}

#[test]
fn absolute_gate_is_strict() {
    // A block whose loudness is exactly -70.0 LKFS must be excluded from
    // the absolute-gated mean: adding it changes nothing.
    let weights = bits(&[1.0]);
    let loud = vec![0.1f64.to_bits()];

    let target = (-70.0f64).to_bits();
    // Search near 10^((−70 + 0.691) / 10) for a power whose computed block
    // loudness is exactly the threshold bit pattern. Many neighboring bit
    // patterns map to the same loudness, so an exact hit exists close by.
    let guess = libm::pow(10.0, (-70.0 + 0.691) / 10.0);
    let mut at_threshold: Option<u64> = None;
    for d in -20000i64..20000 {
        let cand = (guess.to_bits() as i64 + d) as u64;
        if block_loudness(&vec![cand], &weights) == target {
            at_threshold = Some(cand);
            break;
        }
    }
    let at_threshold = at_threshold.expect("no power with loudness exactly at the threshold");

    let with = Loudness::from_gated_powers(&vec![loud.clone(), vec![at_threshold]], &weights);
    let without = Loudness::from_gated_powers(&vec![loud], &weights);
    assert_eq!(with, without);
}

#[test]
fn relative_gate_is_strict() {
    // A block whose loudness is exactly the relative threshold must be
    // excluded from the final mean, while still taking part in the first
    // pass. Search for the fixed point: a power whose loudness equals the
    // relative threshold computed with that very block included.
    let weights = bits(&[1.0]);
    let loud_power = 0.1f64;
    let loud = vec![loud_power.to_bits()];

    // Solving loudness(c) = loudness((0.1 + c) / 2) - 10 in the reals
    // gives c = 0.1 / 19; scan bit patterns near it.
    let guess = loud_power / 19.0;
    let mut hit: Option<(u64, u64, u64)> = None;
    for d in -200000i64..200000 {
        let cand = (guess.to_bits() as i64 + d) as u64;
        let mut averager = Stats::new(1);
        averager.add(&loud);
        averager.add(&vec![cand]);
        let absolute = block_loudness(&averager.mean(), &weights);
        let threshold = lkfs::scalar::sub64(absolute, lkfs::coeff::TEN_BITS);
        let cand_loudness = block_loudness(&vec![cand], &weights);
        if cand_loudness == threshold {
            hit = Some((cand, threshold, absolute));
            break;
        }
    }
    let (at_threshold, _, _) = hit.expect("no power with loudness exactly at the relative threshold");

    // The block at the threshold passes the absolute gate (about -20 LKFS)
    // but not the strict relative gate, so the final mean holds only the
    // loud block: the result is the loudness of the loud block alone.
    let produced = Loudness::from_gated_powers(&vec![loud.clone(), vec![at_threshold]], &weights);
    let loud_alone = block_loudness(&loud, &weights);
    assert_eq!(produced, loud_alone);
}

#[test]
fn running_mean_matches_arithmetic_average() {
    let mut averager = Stats::new(2);
    averager.add(&bits(&[1.0, 8.0]));
    averager.add(&bits(&[2.0, 16.0]));
    averager.add(&bits(&[3.0, 24.0]));
    let mean = averager.mean();
    assert_eq!(f64::from_bits(mean[0]), 2.0);
    assert_eq!(f64::from_bits(mean[1]), 16.0);
}
