//! The K-weighting filter: a stateful biquad pass (Direct Form II
//! transposed), and the cascade of a shelving pass followed by a high-pass
//! pass, applied per sample over any channel count.
//!
//! Each pass holds two delay vectors shaped like a sample frame. Applying a
//! frame produces one output frame and advances both delay vectors; the
//! contracts state every output and every new delay value as the exact
//! chain of binary64 operations on the bit patterns involved.

use vstd::prelude::*;
use crate::scalar::{
    add_of, mul_of, neg_bits, is_zero_bits, add64, mul64, neg64, lemma_neg_classifies, ZERO_BITS,
};
use crate::coeff::{Kind, Coefficients, coefficients_finite, spec_coefficients};
use crate::stats::{spec_zero_frame, zero_frame};

verus! {

/// Every sample of the frame is a zero of either sign.
pub open spec fn frame_all_zero(s: Seq<u64>) -> bool {
    forall|i: int| 0 <= i < s.len() ==> is_zero_bits(s[i])
}

/// The frames of a frame vector, as a sequence of sample sequences.
pub open spec fn frames_view(v: Seq<Vec<u64>>) -> Seq<Seq<u64>> {
    Seq::new(v.len(), |j: int| v[j]@)
}

/// One channel's biquad output: `out = m1 + x * b0`.
pub open spec fn spec_pass_out(c: Coefficients, m1: u64, m2: u64, x: u64) -> u64 {
    add_of(m1, mul_of(x, c.b0))
}

/// One channel's next first delay value: `m1' = m2 + x * b1 + out * (-a1)`.
pub open spec fn spec_pass_m1(c: Coefficients, m1: u64, m2: u64, x: u64) -> u64 {
    add_of(m2, add_of(mul_of(x, c.b1), mul_of(spec_pass_out(c, m1, m2, x), neg_bits(c.a1))))
}

/// One channel's next second delay value: `m2' = x * b2 + out * (-a2)`.
pub open spec fn spec_pass_m2(c: Coefficients, m1: u64, m2: u64, x: u64) -> u64 {
    add_of(mul_of(x, c.b2), mul_of(spec_pass_out(c, m1, m2, x), neg_bits(c.a2)))
}

/// One stateful biquad filter pass over a fixed channel count.
pub struct FilterPass {
    /// The immutable coefficients of this pass.
    pub coeff: Coefficients,
    /// First delay vector, one value per channel.
    pub m1: Vec<u64>,
    /// Second delay vector, one value per channel.
    pub m2: Vec<u64>,
}

impl FilterPass {
    /// The channel count this pass was constructed for.
    pub open spec fn channels(&self) -> nat {
        self.m1@.len()
    }

    /// Both delay vectors are shaped like one frame.
    pub open spec fn wf(&self) -> bool {
        self.m2@.len() == self.m1@.len()
    }

    /// The pass is at equilibrium: every delay value is a zero.
    pub open spec fn is_equilibrium(&self) -> bool {
        frame_all_zero(self.m1@) && frame_all_zero(self.m2@)
    }

    /// A pass with the given coefficients, its delay vectors zeroed.
    pub fn from_coeff(coeff: Coefficients, channels: usize) -> (r: Self)
        ensures
            r.wf(),
            r.coeff == coeff,
            r.m1@ == spec_zero_frame(channels as nat),
            r.m2@ == spec_zero_frame(channels as nat),
    {
        FilterPass { coeff, m1: zero_frame(channels), m2: zero_frame(channels) }
    }

    /// A pass whose coefficients are derived from `kind` at `sample_rate`.
    pub fn from_kind(kind: Kind, sample_rate: u32, channels: usize) -> (r: Self)
        ensures
            r.wf(),
            r.coeff == spec_coefficients(kind, sample_rate),
            r.m1@ == spec_zero_frame(channels as nat),
            r.m2@ == spec_zero_frame(channels as nat),
    {
        Self::from_coeff(kind.coefficients(sample_rate), channels)
    }

    /// Filter one frame: per channel, produce `m1 + x*b0` and advance the
    /// delays by the Direct Form II transposed update. At equilibrium, a
    /// frame of zeros leaves a filter with finite coefficients at
    /// equilibrium and produces a frame of zeros.
    pub fn apply(&mut self, input: &Vec<u64>) -> (out: Vec<u64>)
        requires
            old(self).wf(),
            input@.len() == old(self).channels(),
        ensures
            final(self).wf(),
            final(self).coeff == old(self).coeff,
            final(self).channels() == old(self).channels(),
            out@.len() == input@.len(),
            forall|i: int|
                0 <= i < input@.len() ==> out@[i] == spec_pass_out(
                    old(self).coeff,
                    old(self).m1@[i],
                    old(self).m2@[i],
                    input@[i],
                ),
            forall|i: int|
                0 <= i < input@.len() ==> final(self).m1@[i] == spec_pass_m1(
                    old(self).coeff,
                    old(self).m1@[i],
                    old(self).m2@[i],
                    input@[i],
                ),
            forall|i: int|
                0 <= i < input@.len() ==> final(self).m2@[i] == spec_pass_m2(
                    old(self).coeff,
                    old(self).m1@[i],
                    old(self).m2@[i],
                    input@[i],
                ),
            coefficients_finite(old(self).coeff) && old(self).is_equilibrium() && frame_all_zero(
                input@,
            ) ==> final(self).is_equilibrium() && frame_all_zero(out@),
    {
        let n = input.len();
        let na1 = neg64(self.coeff.a1);
        let na2 = neg64(self.coeff.a2);
        proof {
            lemma_neg_classifies(self.coeff.a1);
            lemma_neg_classifies(self.coeff.a2);
        }
        let mut out: Vec<u64> = Vec::new();
        let mut i: usize = 0;
        while i < n
            invariant
                i <= n,
                input@.len() == n,
                self.coeff == old(self).coeff,
                self.m1@.len() == n,
                self.m2@.len() == n,
                old(self).m1@.len() == n,
                old(self).m2@.len() == n,
                out@.len() == i,
                na1 == neg_bits(self.coeff.a1),
                na2 == neg_bits(self.coeff.a2),
                forall|k: int|
                    0 <= k < i ==> out@[k] == spec_pass_out(
                        old(self).coeff,
                        old(self).m1@[k],
                        old(self).m2@[k],
                        input@[k],
                    ),
                forall|k: int|
                    0 <= k < i ==> self.m1@[k] == spec_pass_m1(
                        old(self).coeff,
                        old(self).m1@[k],
                        old(self).m2@[k],
                        input@[k],
                    ),
                forall|k: int|
                    0 <= k < i ==> self.m2@[k] == spec_pass_m2(
                        old(self).coeff,
                        old(self).m1@[k],
                        old(self).m2@[k],
                        input@[k],
                    ),
                forall|k: int| i <= k < n ==> self.m1@[k] == old(self).m1@[k],
                forall|k: int| i <= k < n ==> self.m2@[k] == old(self).m2@[k],
                coefficients_finite(old(self).coeff) && old(self).is_equilibrium()
                    && frame_all_zero(input@) ==> (forall|k: int|
                    0 <= k < i ==> is_zero_bits(#[trigger] out@[k])),
                coefficients_finite(old(self).coeff) && old(self).is_equilibrium()
                    && frame_all_zero(input@) ==> (forall|k: int|
                    0 <= k < i ==> is_zero_bits(#[trigger] self.m1@[k])),
                coefficients_finite(old(self).coeff) && old(self).is_equilibrium()
                    && frame_all_zero(input@) ==> (forall|k: int|
                    0 <= k < i ==> is_zero_bits(#[trigger] self.m2@[k])),
            decreases n - i,
        {
            proof {
                lemma_neg_classifies(self.coeff.a1);
                lemma_neg_classifies(self.coeff.a2);
                if coefficients_finite(old(self).coeff) && old(self).is_equilibrium()
                    && frame_all_zero(input@) {
                    assert(is_zero_bits(old(self).m1@[i as int]));
                    assert(is_zero_bits(old(self).m2@[i as int]));
                    assert(is_zero_bits(input@[i as int]));
                }
            }
            let x = input[i];
            let m1i = self.m1[i];
            let m2i = self.m2[i];
            let o = add64(m1i, mul64(x, self.coeff.b0));
            let new1 = add64(m2i, add64(mul64(x, self.coeff.b1), mul64(o, na1)));
            let new2 = add64(mul64(x, self.coeff.b2), mul64(o, na2));
            self.m1.set(i, new1);
            self.m2.set(i, new2);
            out.push(o);
            i += 1;
        }
        out
    }
}

/// One channel's K-weighted output: the shelving pass feeds the high pass.
pub open spec fn spec_kw_out(
    ca: Coefficients,
    cb: Coefficients,
    am1: u64,
    am2: u64,
    bm1: u64,
    bm2: u64,
    x: u64,
) -> u64 {
    spec_pass_out(cb, bm1, bm2, spec_pass_out(ca, am1, am2, x))
}

/// The initial two-pass K-weighting filter of ITU-R BS.1770: a high shelf
/// boost accounting for the acoustic effect of the listener's head, then a
/// simple high pass. The order is fixed and significant.
pub struct Filter {
    /// The shelving pass, applied first.
    pub pass_a: FilterPass,
    /// The high pass, applied second.
    pub pass_b: FilterPass,
}

impl Filter {
    /// The channel count this filter was constructed for.
    pub open spec fn channels(&self) -> nat {
        self.pass_a.channels()
    }

    /// Both passes are well shaped over the same channel count.
    pub open spec fn wf(&self) -> bool {
        self.pass_a.wf() && self.pass_b.wf() && self.pass_b.channels() == self.pass_a.channels()
    }

    /// Both passes are at equilibrium.
    pub open spec fn is_equilibrium(&self) -> bool {
        self.pass_a.is_equilibrium() && self.pass_b.is_equilibrium()
    }

    /// A filter for `sample_rate`, both passes freshly at equilibrium.
    pub fn new(sample_rate: u32, channels: usize) -> (r: Self)
        ensures
            r.wf(),
            r.channels() == channels,
            r.pass_a.coeff == spec_coefficients(Kind::Shelving, sample_rate),
            r.pass_b.coeff == spec_coefficients(Kind::HighPass, sample_rate),
            r.pass_a.m1@ == spec_zero_frame(channels as nat),
            r.pass_a.m2@ == spec_zero_frame(channels as nat),
            r.pass_b.m1@ == spec_zero_frame(channels as nat),
            r.pass_b.m2@ == spec_zero_frame(channels as nat),
    {
        let pass_a = FilterPass::from_kind(Kind::Shelving, sample_rate, channels);
        let pass_b = FilterPass::from_kind(Kind::HighPass, sample_rate, channels);
        Filter { pass_a, pass_b }
    }

    /// Filter one frame through both passes in order. With finite
    /// coefficients, a frame of zeros at equilibrium stays at equilibrium
    /// and comes out as zeros.
    pub fn apply(&mut self, input: &Vec<u64>) -> (out: Vec<u64>)
        requires
            old(self).wf(),
            input@.len() == old(self).channels(),
        ensures
            final(self).wf(),
            final(self).channels() == old(self).channels(),
            final(self).pass_a.coeff == old(self).pass_a.coeff,
            final(self).pass_b.coeff == old(self).pass_b.coeff,
            out@.len() == input@.len(),
            forall|i: int|
                0 <= i < input@.len() ==> out@[i] == spec_kw_out(
                    old(self).pass_a.coeff,
                    old(self).pass_b.coeff,
                    old(self).pass_a.m1@[i],
                    old(self).pass_a.m2@[i],
                    old(self).pass_b.m1@[i],
                    old(self).pass_b.m2@[i],
                    input@[i],
                ),
            forall|i: int|
                0 <= i < input@.len() ==> final(self).pass_a.m1@[i] == spec_pass_m1(
                    old(self).pass_a.coeff,
                    old(self).pass_a.m1@[i],
                    old(self).pass_a.m2@[i],
                    input@[i],
                ) && final(self).pass_a.m2@[i] == spec_pass_m2(
                    old(self).pass_a.coeff,
                    old(self).pass_a.m1@[i],
                    old(self).pass_a.m2@[i],
                    input@[i],
                ),
            forall|i: int|
                0 <= i < input@.len() ==> final(self).pass_b.m1@[i] == spec_pass_m1(
                    old(self).pass_b.coeff,
                    old(self).pass_b.m1@[i],
                    old(self).pass_b.m2@[i],
                    spec_pass_out(
                        old(self).pass_a.coeff,
                        old(self).pass_a.m1@[i],
                        old(self).pass_a.m2@[i],
                        input@[i],
                    ),
                ) && final(self).pass_b.m2@[i] == spec_pass_m2(
                    old(self).pass_b.coeff,
                    old(self).pass_b.m1@[i],
                    old(self).pass_b.m2@[i],
                    spec_pass_out(
                        old(self).pass_a.coeff,
                        old(self).pass_a.m1@[i],
                        old(self).pass_a.m2@[i],
                        input@[i],
                    ),
                ),
            coefficients_finite(old(self).pass_a.coeff) && coefficients_finite(
                old(self).pass_b.coeff,
            ) && old(self).is_equilibrium() && frame_all_zero(input@)
                ==> final(self).is_equilibrium() && frame_all_zero(out@),
    {
        let mid = self.pass_a.apply(input);
        self.pass_b.apply(&mid)
    }
}

/// The delay pair of one channel of a pass after consuming the scalar
/// stream `xs` in order, starting from equilibrium.
pub open spec fn spec_pass_state(c: Coefficients, xs: Seq<u64>) -> (u64, u64)
    decreases xs.len(),
{
    if xs.len() == 0 {
        (ZERO_BITS, ZERO_BITS)
    } else {
        let prev = spec_pass_state(c, xs.drop_last());
        (spec_pass_m1(c, prev.0, prev.1, xs.last()), spec_pass_m2(c, prev.0, prev.1, xs.last()))
    }
}

/// The output of one channel of a pass at time `t` of the scalar stream
/// `xs`, the pass having started from equilibrium.
pub open spec fn spec_pass_out_at(c: Coefficients, xs: Seq<u64>, t: int) -> u64 {
    let prev = spec_pass_state(c, xs.take(t));
    spec_pass_out(c, prev.0, prev.1, xs[t])
}

/// Channel `i` of a frame sequence, as one scalar stream.
pub open spec fn channel_of(frames: Seq<Seq<u64>>, i: int) -> Seq<u64> {
    Seq::new(frames.len(), |t: int| frames[t][i])
}

/// The shelving outputs of channel `i`: the stream the high pass consumes.
pub open spec fn mids_of(ca: Coefficients, frames: Seq<Seq<u64>>, i: int) -> Seq<u64> {
    Seq::new(frames.len(), |t: int| spec_pass_out_at(ca, channel_of(frames, i), t))
}

/// The K-weighted output of channel `i` at time `t`: the high pass `cb`,
/// fed by the shelving pass `ca`, both starting from equilibrium over the
/// frame sequence. Filtering is a pure function of the coefficients and the
/// input frames: any two filters built alike produce these same values.
pub open spec fn spec_kw_out_at(
    ca: Coefficients,
    cb: Coefficients,
    frames: Seq<Seq<u64>>,
    i: int,
    t: int,
) -> u64 {
    spec_pass_out_at(cb, mids_of(ca, frames, i), t)
}

/// Filter a whole finite frame sequence through a fresh K-weighting filter
/// for `sample_rate`. The output has exactly as many frames as the input,
/// each output sample is the stated pure function of the sample rate and
/// the input frames, and an all-zero input yields an all-zero output
/// whenever the derived coefficients are finite.
pub fn filter_frames(samples: &Vec<Vec<u64>>, sample_rate: u32, channels: usize) -> (out: Vec<
    Vec<u64>,
>)
    requires
        forall|j: int| 0 <= j < samples@.len() ==> (#[trigger] samples@[j])@.len() == channels,
    ensures
        out@.len() == samples@.len(),
        forall|j: int| 0 <= j < out@.len() ==> (#[trigger] out@[j])@.len() == channels,
        forall|j: int, i: int|
            0 <= j < out@.len() && 0 <= i < channels ==> #[trigger] out@[j]@[i] == spec_kw_out_at(
                spec_coefficients(Kind::Shelving, sample_rate),
                spec_coefficients(Kind::HighPass, sample_rate),
                frames_view(samples@),
                i,
                j,
            ),
        coefficients_finite(spec_coefficients(Kind::Shelving, sample_rate))
            && coefficients_finite(spec_coefficients(Kind::HighPass, sample_rate)) && (forall|
            j: int,
        |
            0 <= j < samples@.len() ==> frame_all_zero(#[trigger] samples@[j]@)) ==> (forall|j: int|
            0 <= j < out@.len() ==> frame_all_zero(#[trigger] out@[j]@)),
{
    let ghost ca = spec_coefficients(Kind::Shelving, sample_rate);
    let ghost cb = spec_coefficients(Kind::HighPass, sample_rate);
    let ghost fv = frames_view(samples@);
    let mut filter = Filter::new(sample_rate, channels);
    proof {
        crate::scalar::lemma_zero_bits_zero();
    }
    let n = samples.len();
    let mut out: Vec<Vec<u64>> = Vec::new();
    let mut t: usize = 0;
    while t < n
        invariant
            t <= n,
            samples@.len() == n,
            fv == frames_view(samples@),
            forall|j: int| 0 <= j < n ==> (#[trigger] samples@[j])@.len() == channels,
            filter.wf(),
            filter.channels() == channels,
            filter.pass_a.coeff == ca,
            filter.pass_b.coeff == cb,
            out@.len() == t,
            forall|j: int| 0 <= j < t ==> (#[trigger] out@[j])@.len() == channels,
            forall|i: int|
                0 <= i < channels ==> (#[trigger] filter.pass_a.m1@[i]) == spec_pass_state(
                    ca,
                    channel_of(fv, i).take(t as int),
                ).0,
            forall|i: int|
                0 <= i < channels ==> (#[trigger] filter.pass_a.m2@[i]) == spec_pass_state(
                    ca,
                    channel_of(fv, i).take(t as int),
                ).1,
            forall|i: int|
                0 <= i < channels ==> (#[trigger] filter.pass_b.m1@[i]) == spec_pass_state(
                    cb,
                    mids_of(ca, fv, i).take(t as int),
                ).0,
            forall|i: int|
                0 <= i < channels ==> (#[trigger] filter.pass_b.m2@[i]) == spec_pass_state(
                    cb,
                    mids_of(ca, fv, i).take(t as int),
                ).1,
            forall|j: int, i: int|
                0 <= j < t && 0 <= i < channels ==> #[trigger] out@[j]@[i] == spec_kw_out_at(
                    ca,
                    cb,
                    fv,
                    i,
                    j,
                ),
            coefficients_finite(ca) && coefficients_finite(cb) && (forall|j: int|
                0 <= j < n ==> frame_all_zero(#[trigger] samples@[j]@)) ==> (filter.is_equilibrium()
                && (forall|j: int| 0 <= j < t ==> frame_all_zero(#[trigger] out@[j]@))),
        decreases n - t,
    {
        let ghost pre = filter;
        let o = filter.apply(&samples[t]);
        proof {
            assert forall|i: int|
                #![trigger filter.pass_a.m1@[i]]
                #![trigger filter.pass_a.m2@[i]]
                #![trigger filter.pass_b.m1@[i]]
                #![trigger filter.pass_b.m2@[i]]
                #![trigger o@[i]]
                0 <= i < channels implies {
                &&& filter.pass_a.m1@[i] == spec_pass_state(ca, channel_of(fv, i).take(t + 1)).0
                &&& filter.pass_a.m2@[i] == spec_pass_state(ca, channel_of(fv, i).take(t + 1)).1
                &&& filter.pass_b.m1@[i] == spec_pass_state(cb, mids_of(ca, fv, i).take(t + 1)).0
                &&& filter.pass_b.m2@[i] == spec_pass_state(cb, mids_of(ca, fv, i).take(t + 1)).1
                &&& o@[i] == spec_kw_out_at(ca, cb, fv, i, t as int)
            } by {
                let s = channel_of(fv, i);
                let m = mids_of(ca, fv, i);
                assert(pre.pass_b.m1@[i] == spec_pass_state(cb, m.take(t as int)).0);
                assert(pre.pass_b.m2@[i] == spec_pass_state(cb, m.take(t as int)).1);
                assert(s.take(t + 1).drop_last() =~= s.take(t as int));
                assert(m.take(t + 1).drop_last() =~= m.take(t as int));
                assert(s.take(t + 1).last() == samples@[t as int]@[i]);
                assert(m.take(t + 1).last() == spec_pass_out_at(ca, s, t as int));
                assert(spec_pass_out_at(ca, s, t as int) == spec_pass_out(
                    ca,
                    pre.pass_a.m1@[i],
                    pre.pass_a.m2@[i],
                    samples@[t as int]@[i],
                ));
            }
        }
        out.push(o);
        t += 1;
    }
    out
}

/// Lazily K-weight a finite frame sequence: each pull filters exactly one
/// input frame, in input order, and the remaining length reported is
/// always exactly the number of frames not yet pulled. The internal filter
/// state advances irreversibly, so the sequence is not restartable.
pub struct FilteredSamples {
    /// The source frames, consumed front to back.
    pub samples: Vec<Vec<u64>>,
    /// How many frames have been pulled so far.
    pub pos: usize,
    /// The filter state after the first `pos` frames.
    pub filter: Filter,
}

impl FilteredSamples {
    /// The source is frame-shaped for the filter and the position is inside
    /// the source.
    pub open spec fn wf(&self) -> bool {
        &&& self.filter.wf()
        &&& self.pos <= self.samples@.len()
        &&& forall|j: int|
            0 <= j < self.samples@.len() ==> (#[trigger] self.samples@[j])@.len()
                == self.filter.channels()
    }

    /// Wrap a frame sequence with a fresh K-weighting filter for
    /// `sample_rate`.
    pub fn new(samples: Vec<Vec<u64>>, sample_rate: u32, channels: usize) -> (r: Self)
        requires
            forall|j: int| 0 <= j < samples@.len() ==> (#[trigger] samples@[j])@.len() == channels,
        ensures
            r.wf(),
            r.pos == 0,
            r.samples == samples,
            r.filter.channels() == channels,
            r.filter.pass_a.coeff == spec_coefficients(Kind::Shelving, sample_rate),
            r.filter.pass_b.coeff == spec_coefficients(Kind::HighPass, sample_rate),
            r.filter.is_equilibrium(),
    {
        proof {
            crate::scalar::lemma_zero_bits_zero();
        }
        FilteredSamples { samples, pos: 0, filter: Filter::new(sample_rate, channels) }
    }

    /// Pull the next filtered frame: exactly one input frame is consumed
    /// and filtered through the state the filter reached so far. At the end
    /// of the source, nothing changes and nothing is produced.
    pub fn next(&mut self) -> (r: Option<Vec<u64>>)
        requires
            old(self).wf(),
        ensures
            final(self).wf(),
            final(self).samples == old(self).samples,
            final(self).filter.channels() == old(self).filter.channels(),
            final(self).filter.pass_a.coeff == old(self).filter.pass_a.coeff,
            final(self).filter.pass_b.coeff == old(self).filter.pass_b.coeff,
            old(self).pos == old(self).samples@.len() ==> r is None && *final(self) == *old(self),
            old(self).pos < old(self).samples@.len() ==> {
                &&& final(self).pos == old(self).pos + 1
                &&& r matches Some(v) && v@.len() == old(self).filter.channels() && (forall|i: int|
                    0 <= i < v@.len() ==> #[trigger] v@[i] == spec_kw_out(
                        old(self).filter.pass_a.coeff,
                        old(self).filter.pass_b.coeff,
                        old(self).filter.pass_a.m1@[i],
                        old(self).filter.pass_a.m2@[i],
                        old(self).filter.pass_b.m1@[i],
                        old(self).filter.pass_b.m2@[i],
                        old(self).samples@[old(self).pos as int]@[i],
                    ))
                &&& forall|i: int|
                    0 <= i < old(self).filter.channels()
                        ==> (#[trigger] final(self).filter.pass_a.m1@[i]) == spec_pass_m1(
                        old(self).filter.pass_a.coeff,
                        old(self).filter.pass_a.m1@[i],
                        old(self).filter.pass_a.m2@[i],
                        old(self).samples@[old(self).pos as int]@[i],
                    )
                &&& forall|i: int|
                    0 <= i < old(self).filter.channels()
                        ==> (#[trigger] final(self).filter.pass_a.m2@[i]) == spec_pass_m2(
                        old(self).filter.pass_a.coeff,
                        old(self).filter.pass_a.m1@[i],
                        old(self).filter.pass_a.m2@[i],
                        old(self).samples@[old(self).pos as int]@[i],
                    )
                &&& forall|i: int|
                    0 <= i < old(self).filter.channels()
                        ==> (#[trigger] final(self).filter.pass_b.m1@[i]) == spec_pass_m1(
                        old(self).filter.pass_b.coeff,
                        old(self).filter.pass_b.m1@[i],
                        old(self).filter.pass_b.m2@[i],
                        spec_pass_out(
                            old(self).filter.pass_a.coeff,
                            old(self).filter.pass_a.m1@[i],
                            old(self).filter.pass_a.m2@[i],
                            old(self).samples@[old(self).pos as int]@[i],
                        ),
                    )
                &&& forall|i: int|
                    0 <= i < old(self).filter.channels()
                        ==> (#[trigger] final(self).filter.pass_b.m2@[i]) == spec_pass_m2(
                        old(self).filter.pass_b.coeff,
                        old(self).filter.pass_b.m1@[i],
                        old(self).filter.pass_b.m2@[i],
                        spec_pass_out(
                            old(self).filter.pass_a.coeff,
                            old(self).filter.pass_a.m1@[i],
                            old(self).filter.pass_a.m2@[i],
                            old(self).samples@[old(self).pos as int]@[i],
                        ),
                    )
            },
    {
        if self.pos < self.samples.len() {
            let frame_out = self.filter.apply(&self.samples[self.pos]);
            self.pos = self.pos + 1;
            Some(frame_out)
        } else {
            None
        }
    }

    /// The exact number of frames not yet pulled: filtering preserves the
    /// source's remaining length.
    pub fn len(&self) -> (r: usize)
        requires
            self.wf(),
        ensures
            r == self.samples@.len() - self.pos,
    {
        self.samples.len() - self.pos
    }
}

} // verus!
