//! Biquad coefficient derivation: the bilinear transform of the two analog
//! prototypes fixed by ITU-R BS.1770 (a shelving boost and a high pass),
//! evaluated at a given sample rate.
//!
//! Every constant of the standard is given here as the bit pattern of the
//! binary64 value named in its doc comment, and the derivation is the exact
//! chain of binary64 operations stated by `spec_coefficients`.

use vstd::prelude::*;
use crate::scalar::{
    add_of, sub_of, mul_of, div_of, tan_of, pow_of, f64_of_count, is_finite_bits,
    add64, sub64, mul64, div64, tan64, pow64, count_to_bits,
};

verus! {

/// Bit pattern of the binary64 value nearest to pi.
pub const PI_BITS: u64 = 0x400921FB54442D18;

/// Bit pattern of 1.0.
pub const ONE_BITS: u64 = 0x3FF0000000000000;

/// Bit pattern of 2.0.
pub const TWO_BITS: u64 = 0x4000000000000000;

/// Bit pattern of -2.0.
pub const NEG_TWO_BITS: u64 = 0xC000000000000000;

/// Bit pattern of 10.0.
pub const TEN_BITS: u64 = 0x4024000000000000;

/// Bit pattern of 20.0.
pub const TWENTY_BITS: u64 = 0x4034000000000000;

/// Shelving center frequency, 1681.974450955533 Hz.
pub const F0_SHELVING_BITS: u64 = 0x409A47E5D678A648;

/// Shelving quality factor, 0.7071752369554196.
pub const Q_SHELVING_BITS: u64 = 0x3FE6A12DF668776C;

/// High-pass center frequency, 38.13547087602444 Hz.
pub const F0_HIGHPASS_BITS: u64 = 0x404311571C130AF0;

/// High-pass quality factor, 0.5003270373238773.
pub const Q_HIGHPASS_BITS: u64 = 0x3FE002ADD8D38A3C;

/// Shelving boost height in dB, 3.999843853973347.
pub const HEIGHT_BITS: u64 = 0x400FFFAE226F6083;

/// Exponent relating the shelving boost to its bandwidth gain,
/// 0.4996667741545416.
pub const VB_EXPONENT_BITS: u64 = 0x3FDFFA8A59790F8D;

/// The two filter kinds of the K-weighting cascade.
#[derive(Copy, Clone, Debug, PartialEq, Eq, Structural)]
pub enum Kind {
    /// High shelf boost accounting for the acoustic effect of the head.
    Shelving,
    /// High pass rolling off the lowest frequencies.
    HighPass,
}

/// Coefficients of a biquad digital filter at a particular sample rate.
/// The `a0` coefficient is always normalized to 1.0 and not carried.
/// Each field is the bit pattern of a binary64 value.
#[derive(Copy, Clone, Debug, PartialEq, Eq, Structural)]
pub struct Coefficients {
    /// Numerator coefficients.
    pub b0: u64,
    pub b1: u64,
    pub b2: u64,
    /// Denominator coefficients; a0 is implied to be normalized to 1.0.
    pub a1: u64,
    pub a2: u64,
}

/// All five coefficients are finite binary64 values.
pub open spec fn coefficients_finite(c: Coefficients) -> bool {
    is_finite_bits(c.b0) && is_finite_bits(c.b1) && is_finite_bits(c.b2) && is_finite_bits(c.a1)
        && is_finite_bits(c.a2)
}

/// The center frequency and quality factor of a filter kind.
pub open spec fn spec_kind_f0(kind: Kind) -> u64 {
    match kind {
        Kind::Shelving => F0_SHELVING_BITS,
        Kind::HighPass => F0_HIGHPASS_BITS,
    }
}

pub open spec fn spec_kind_q(kind: Kind) -> u64 {
    match kind {
        Kind::Shelving => Q_SHELVING_BITS,
        Kind::HighPass => Q_HIGHPASS_BITS,
    }
}

/// The warped frequency `k = tan(pi * f0 / sample_rate)` of a kind.
pub open spec fn spec_k(kind: Kind, sample_rate: u32) -> u64 {
    tan_of(div_of(mul_of(PI_BITS, spec_kind_f0(kind)), f64_of_count(sample_rate as usize)))
}

/// The normalization divisor `a0 = 1 + k/q + k*k`.
pub open spec fn spec_a0(kind: Kind, sample_rate: u32) -> u64 {
    let k = spec_k(kind, sample_rate);
    add_of(add_of(ONE_BITS, div_of(k, spec_kind_q(kind))), mul_of(k, k))
}

/// The shelving boost `vh = 10^(height / 20)`.
pub open spec fn spec_vh() -> u64 {
    pow_of(TEN_BITS, div_of(HEIGHT_BITS, TWENTY_BITS))
}

/// The shelving bandwidth gain `vb = vh^0.4996667741545416`.
pub open spec fn spec_vb() -> u64 {
    pow_of(spec_vh(), VB_EXPONENT_BITS)
}

/// The exact binary64 operation chain deriving the coefficients of `kind`
/// at `sample_rate`: the bilinear transform of the analog prototype, with
/// the high-pass numerator fixed at (1, -2, 1).
pub open spec fn spec_coefficients(kind: Kind, sample_rate: u32) -> Coefficients {
    let k = spec_k(kind, sample_rate);
    let k_by_q = div_of(k, spec_kind_q(kind));
    let k_sq = mul_of(k, k);
    let a0 = add_of(add_of(ONE_BITS, k_by_q), k_sq);
    let a1 = div_of(mul_of(TWO_BITS, sub_of(k_sq, ONE_BITS)), a0);
    let a2 = div_of(add_of(sub_of(ONE_BITS, k_by_q), k_sq), a0);
    match kind {
        Kind::Shelving => Coefficients {
            b0: div_of(add_of(add_of(spec_vh(), mul_of(spec_vb(), k_by_q)), k_sq), a0),
            b1: div_of(mul_of(TWO_BITS, sub_of(k_sq, spec_vh())), a0),
            b2: div_of(add_of(sub_of(spec_vh(), mul_of(spec_vb(), k_by_q)), k_sq), a0),
            a1,
            a2,
        },
        Kind::HighPass => Coefficients { b0: ONE_BITS, b1: NEG_TWO_BITS, b2: ONE_BITS, a1, a2 },
    }
}

impl Kind {
    /// Derive the biquad coefficients of this kind at `sample_rate`, by the
    /// bilinear transform of the kind's analog prototype.
    pub fn coefficients(&self, sample_rate: u32) -> (r: Coefficients)
        ensures
            r == spec_coefficients(*self, sample_rate),
    {
        let (f0, q): (u64, u64) = match self {
            Kind::Shelving => (F0_SHELVING_BITS, Q_SHELVING_BITS),
            Kind::HighPass => (F0_HIGHPASS_BITS, Q_HIGHPASS_BITS),
        };

        let sr = count_to_bits(sample_rate as usize);
        let k = tan64(div64(mul64(PI_BITS, f0), sr));
        let k_by_q = div64(k, q);
        let k_sq = mul64(k, k);

        let a0 = add64(add64(ONE_BITS, k_by_q), k_sq);
        let a1 = div64(mul64(TWO_BITS, sub64(k_sq, ONE_BITS)), a0);
        let a2 = div64(add64(sub64(ONE_BITS, k_by_q), k_sq), a0);

        let (b0, b1, b2): (u64, u64, u64) = match self {
            Kind::Shelving => {
                let vh = pow64(TEN_BITS, div64(HEIGHT_BITS, TWENTY_BITS));
                let vb = pow64(vh, VB_EXPONENT_BITS);

                let b0 = div64(add64(add64(vh, mul64(vb, k_by_q)), k_sq), a0);
                let b1 = div64(mul64(TWO_BITS, sub64(k_sq, vh)), a0);
                let b2 = div64(add64(sub64(vh, mul64(vb, k_by_q)), k_sq), a0);

                (b0, b1, b2)
            },
            Kind::HighPass => (ONE_BITS, NEG_TWO_BITS, ONE_BITS),
        };

        Coefficients { b0, b1, b2, a1, a2 }
    }
}

} // verus!
