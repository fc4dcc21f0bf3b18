use lkfs::coeff::{Coefficients, Kind};
use lkfs::filter::{filter_frames, Filter, FilterPass, FilteredSamples};

fn bits_frame(xs: &[f64]) -> Vec<u64> {
    xs.iter().map(|x| x.to_bits()).collect()
}

fn floats_frame(bits: &[u64]) -> Vec<f64> {
    bits.iter().map(|b| f64::from_bits(*b)).collect()
}

fn coeff_close(produced: Coefficients, a1: f64, a2: f64, b0: f64, b1: f64, b2: f64) -> bool {
    let eps = 1e-9;
    approx::AbsDiffEq::abs_diff_eq(&f64::from_bits(produced.a1), &a1, eps)
        && approx::AbsDiffEq::abs_diff_eq(&f64::from_bits(produced.a2), &a2, eps)
        && approx::AbsDiffEq::abs_diff_eq(&f64::from_bits(produced.b0), &b0, eps)
        && approx::AbsDiffEq::abs_diff_eq(&f64::from_bits(produced.b1), &b1, eps)
        && approx::AbsDiffEq::abs_diff_eq(&f64::from_bits(produced.b2), &b2, eps)
}

#[test]
fn coefficients() {
    let produced = Kind::Shelving.coefficients(48000);
    assert!(coeff_close(
        produced,
        -1.6906592931824103,
        0.7324807742158501,
        1.5351248595869702,
        -2.6916961894063807,
        1.19839281085285,
    ));

    let produced = Kind::Shelving.coefficients(44100);
    assert!(coeff_close(
        produced,
        -1.6636551132560204,
        0.7125954280732254,
        1.5308412300503478,
        -2.6509799951547297,
        1.169079079921587,
    ));

    let produced = Kind::Shelving.coefficients(8000);
    assert!(coeff_close(
        produced,
        -0.2933807824149212,
        0.18687510604540827,
        1.3216235689299776,
        -0.7262554913156911,
        0.2981262460162007,
    ));

    let produced = Kind::Shelving.coefficients(192000);
    assert!(coeff_close(
        produced,
        -1.9222022306074886,
        0.925117735116826,
        1.5722272150912788,
        -3.0472830515615508,
        1.4779713409796091,
    ));

    let produced = Kind::HighPass.coefficients(48000);
    assert!(coeff_close(
        produced,
        -1.99004745483398,
        0.99007225036621,
        1.00000000000000,
        -2.00000000000000,
        1.00000000000000,
    ));
}

#[test]
fn highpass_numerator_is_exact() {
    for rate in [8000u32, 44100, 48000, 192000] {
        let c = Kind::HighPass.coefficients(rate);
        assert_eq!(c.b0, 1.0f64.to_bits());
        assert_eq!(c.b1, (-2.0f64).to_bits());
        assert_eq!(c.b2, 1.0f64.to_bits());
    }
}

#[test]
fn filter_pass_apply() {
    let mut filter_pass = FilterPass::from_kind(Kind::Shelving, 48000, 5);

    let expected_rows = vec![
        [-1.5351248595869702, -0.7675624297934851, 0.0, 0.7675624297934851, 1.5351248595869702],
        [-1.4388017802366435, -0.7194008901183218, 0.0, 0.7194008901183218, 1.4388017802366435],
        [-1.3498956361696552, -0.6749478180848276, 0.0, 0.6749478180848276, 1.3498956361696552],
        [-1.2701404412191692, -0.6350702206095846, 0.0, 0.6350702206095846, 1.2701404412191692],
        [-1.2004236209352888, -0.6002118104676444, 0.0, 0.6002118104676444, 1.2004236209352888],
        [-1.1409753777762859, -0.5704876888881429, 0.0, 0.5704876888881429, 1.1409753777762859],
        [-1.0915348835135539, -0.5457674417567769, 0.0, 0.5457674417567769, 1.0915348835135539],
        [-1.0514925476036132, -0.5257462738018066, 0.0, 0.5257462738018066, 1.0514925476036132],
    ];

    let input = bits_frame(&[-1.0, -0.5, 0.0, 0.5, 1.0]);

    for expected in expected_rows {
        let produced = floats_frame(&filter_pass.apply(&input));

        for (i, (px, ex)) in produced.iter().zip(&expected).enumerate() {
            assert!(
                approx::AbsDiffEq::abs_diff_eq(px, ex, 1e-9),
                "samples @ {} differ: {} != {}",
                i,
                px,
                ex
            );
        }
    }
}

#[test]
fn filter_apply() {
    let mut filter = Filter::new(48000, 5);

    let expected_rows = vec![
        [-1.5351248595869702, -0.7675624297934851, 0.0, 0.7675624297934851, 1.5351248595869702],
        [-1.4235233807361238, -0.7117616903680619, 0.0, 0.7117616903680619, 1.4235233807361238],
        [-1.3204114916895402, -0.6602057458447701, 0.0, 0.6602057458447701, 1.3204114916895402],
        [-1.2274414804724807, -0.6137207402362403, 0.0, 0.6137207402362403, 1.2274414804724807],
        [-1.1454023918520506, -0.5727011959260253, 0.0, 0.5727011959260253, 1.1454023918520506],
        [-1.0744179430265826, -0.5372089715132913, 0.0, 0.5372089715132913, 1.0744179430265826],
        [-1.0141193181684820, -0.5070596590842410, 0.0, 0.5070596590842410, 1.014119318168482],
        [-0.9637923356857869, -0.48189616784289346, 0.0, 0.48189616784289346, 0.9637923356857869],
    ];

    let input = bits_frame(&[-1.0, -0.5, 0.0, 0.5, 1.0]);

    for expected in expected_rows {
        let produced = floats_frame(&filter.apply(&input));

        for (i, (px, ex)) in produced.iter().zip(&expected).enumerate() {
            assert!(
                approx::AbsDiffEq::abs_diff_eq(px, ex, 1e-9),
                "samples @ {} differ: {} != {}",
                i,
                px,
                ex
            );
        }
    }
}

#[test]
fn first_cascade_row_matches_shelving_row() {
    // On the very first frame the high pass is at equilibrium and its
    // numerator is exactly (1, -2, 1), so the cascade's first output row
    // coincides with the shelving-only first row.
    let input = bits_frame(&[-1.0, -0.5, 0.0, 0.5, 1.0]);
    let mut pass = FilterPass::from_kind(Kind::Shelving, 48000, 5);
    let mut cascade = Filter::new(48000, 5);
    let shelving_row = floats_frame(&pass.apply(&input));
    let cascade_row = floats_frame(&cascade.apply(&input));
    for (p, c) in shelving_row.iter().zip(&cascade_row) {
        assert!(approx::AbsDiffEq::abs_diff_eq(p, c, 1e-9));
    }
}

#[test]
fn silence_stays_silence() {
    let frames: Vec<Vec<u64>> = (0..64).map(|_| bits_frame(&[0.0, 0.0, 0.0])).collect();
    for rate in [8000u32, 44100, 48000, 192000] {
        let out = filter_frames(&frames, rate, 3);
        assert_eq!(out.len(), frames.len());
        for frame in &out {
            for s in frame {
                assert_eq!(f64::from_bits(*s), 0.0);
            }
        }
    }
}

#[test]
fn filtering_preserves_length() {
    let frames: Vec<Vec<u64>> = (0..37)
        .map(|t| bits_frame(&[(t as f64) / 37.0, -(t as f64) / 74.0]))
        .collect();
    let out = filter_frames(&frames, 48000, 2);
    assert_eq!(out.len(), 37);

    let mut stream = FilteredSamples::new(frames, 48000, 2);
    assert_eq!(stream.len(), 37);
    let mut pulled = 0usize;
    while let Some(frame) = stream.next() {
        assert_eq!(frame.len(), 2);
        pulled += 1;
        assert_eq!(stream.len(), 37 - pulled);
    }
    assert_eq!(pulled, 37);
    assert!(stream.next().is_none());
    assert_eq!(stream.len(), 0);
}

#[test]
fn filtering_is_deterministic() {
    let frames: Vec<Vec<u64>> = (0..50)
        .map(|t| bits_frame(&[(t as f64 * 0.7).sin(), (t as f64 * 1.3).cos()]))
        .collect();

    let once = filter_frames(&frames, 44100, 2);
    let twice = filter_frames(&frames, 44100, 2);
    assert_eq!(once, twice);

    let mut a = Filter::new(44100, 2);
    let mut b = Filter::new(44100, 2);
    for frame in &frames {
        assert_eq!(a.apply(frame), b.apply(frame));
    }
}

#[test]
fn streaming_matches_whole_sequence_filtering() {
    let frames: Vec<Vec<u64>> = (0..40)
        .map(|t| bits_frame(&[(t as f64 * 0.11).sin()]))
        .collect();
    let whole = filter_frames(&frames, 48000, 1);
    let mut stream = FilteredSamples::new(frames, 48000, 1);
    for expected in whole {
        assert_eq!(stream.next(), Some(expected));
    }
    assert_eq!(stream.next(), None);
}
