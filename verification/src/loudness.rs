//! Gated integrated loudness after ITU-R BS.1770: per-block loudness from
//! weighted channel powers, and the three-pass gating that averages only
//! the blocks above the absolute threshold and then only those above the
//! relative threshold.
//!
//! Both gates compare with strict `greater than`: a block exactly at a
//! threshold is excluded. The contracts state the retained block sequences
//! exactly, and the strictness of both gates is proved as lemmas.

use vstd::prelude::*;
use crate::scalar::{
    add_of, sub_of, mul_of, div_of, log10_of, f64_of_count, f64_gt, lemma_gt_irreflexive, add64,
    sub64, mul64, gt64, log10_64, ZERO_BITS,
};
use crate::coeff::TEN_BITS;
use crate::stats::{Stats, spec_zero_frame};
use crate::filter::frames_view;

verus! {

/// Bit pattern of -0.691, the offset of the loudness formula.
pub const LOUDNESS_OFFSET_BITS: u64 = 0xBFE61CAC083126E9;

/// Bit pattern of -70.0 LKFS, the absolute gating threshold.
pub const ABSOLUTE_THRESHOLD_BITS: u64 = 0xC051800000000000;

/// The weighted power sum of the first `n` channels: the left fold of
/// `acc + w[i] * p[i]` starting from zero.
pub open spec fn spec_weighted_sum_prefix(p: Seq<u64>, w: Seq<u64>, n: int) -> u64
    decreases n,
{
    if n <= 0 {
        ZERO_BITS
    } else {
        add_of(spec_weighted_sum_prefix(p, w, n - 1), mul_of(w[n - 1], p[n - 1]))
    }
}

/// The weighted power sum over all channels.
pub open spec fn spec_weighted_sum(p: Seq<u64>, w: Seq<u64>) -> u64 {
    spec_weighted_sum_prefix(p, w, w.len() as int)
}

/// Loudness of one power vector in LKFS:
/// `-0.691 + 10 * log10(sum of w[i] * p[i])`.
pub open spec fn spec_block_loudness(p: Seq<u64>, w: Seq<u64>) -> u64 {
    add_of(LOUDNESS_OFFSET_BITS, mul_of(TEN_BITS, log10_of(spec_weighted_sum(p, w))))
}

/// Compute the loudness of one power vector under the given channel
/// weights.
pub fn block_loudness(powers: &Vec<u64>, weights: &Vec<u64>) -> (r: u64)
    requires
        powers@.len() == weights@.len(),
    ensures
        r == spec_block_loudness(powers@, weights@),
{
    let n = weights.len();
    let mut acc: u64 = ZERO_BITS;
    let mut i: usize = 0;
    while i < n
        invariant
            i <= n,
            weights@.len() == n,
            powers@.len() == n,
            acc == spec_weighted_sum_prefix(powers@, weights@, i as int),
        decreases n - i,
    {
        acc = add64(acc, mul64(weights[i], powers[i]));
        i += 1;
    }
    add64(LOUDNESS_OFFSET_BITS, mul64(TEN_BITS, log10_64(acc)))
}

/// The absolute gate keeps a block whose loudness is strictly above
/// -70.0 LKFS.
pub open spec fn keeps_absolute(p: Seq<u64>, w: Seq<u64>) -> bool {
    f64_gt(spec_block_loudness(p, w), ABSOLUTE_THRESHOLD_BITS)
}

/// The blocks the absolute gate keeps, in block order.
pub open spec fn spec_absolutely_loud(ps: Seq<Seq<u64>>, w: Seq<u64>) -> Seq<Seq<u64>>
    decreases ps.len(),
{
    if ps.len() == 0 {
        Seq::empty()
    } else {
        let rest = spec_absolutely_loud(ps.drop_last(), w);
        if keeps_absolute(ps.last(), w) {
            rest.push(ps.last())
        } else {
            rest
        }
    }
}

/// Per-channel binary64 sums of a block sequence, folded in block order
/// from a zero frame.
pub open spec fn spec_sums(ps: Seq<Seq<u64>>, channels: nat) -> Seq<u64>
    decreases ps.len(),
{
    if ps.len() == 0 {
        spec_zero_frame(channels)
    } else {
        let rest = spec_sums(ps.drop_last(), channels);
        Seq::new(channels, |i: int| add_of(rest[i], ps.last()[i]))
    }
}

/// The per-channel arithmetic mean of a block sequence: each channel's sum
/// divided by the block count. Of no blocks at all, this divides zero by
/// zero, and every channel of the mean is a NaN pattern.
pub open spec fn spec_mean(ps: Seq<Seq<u64>>, channels: nat) -> Seq<u64> {
    Seq::new(
        channels,
        |i: int| div_of(spec_sums(ps, channels)[i], f64_of_count(ps.len() as usize)),
    )
}

/// Loudness of the mean of the absolutely loud blocks.
pub open spec fn spec_absolute_loudness(ps: Seq<Seq<u64>>, w: Seq<u64>) -> u64 {
    spec_block_loudness(spec_mean(spec_absolutely_loud(ps, w), w.len()), w)
}

/// The relative gating threshold: the absolute loudness minus 10.0 LKFS.
pub open spec fn spec_relative_threshold(ps: Seq<Seq<u64>>, w: Seq<u64>) -> u64 {
    sub_of(spec_absolute_loudness(ps, w), TEN_BITS)
}

/// The relative gate keeps a block whose loudness is strictly above the
/// relative threshold.
pub open spec fn keeps_relative(p: Seq<u64>, w: Seq<u64>, threshold: u64) -> bool {
    f64_gt(spec_block_loudness(p, w), threshold)
}

/// The blocks the relative gate keeps among the absolutely loud ones.
pub open spec fn spec_relatively_loud(rs: Seq<Seq<u64>>, w: Seq<u64>, threshold: u64) -> Seq<
    Seq<u64>,
>
    decreases rs.len(),
{
    if rs.len() == 0 {
        Seq::empty()
    } else {
        let rest = spec_relatively_loud(rs.drop_last(), w, threshold);
        if keeps_relative(rs.last(), w, threshold) {
            rest.push(rs.last())
        } else {
            rest
        }
    }
}

/// The integrated loudness of a block sequence: the loudness of the mean of
/// the blocks that pass both gates.
pub open spec fn spec_gated_loudness(ps: Seq<Seq<u64>>, w: Seq<u64>) -> u64 {
    let threshold = spec_relative_threshold(ps, w);
    let rel = spec_relatively_loud(spec_absolutely_loud(ps, w), w, threshold);
    spec_block_loudness(spec_mean(rel, w.len()), w)
}

/// The absolute gate is strict: a block whose loudness is exactly the
/// -70.0 LKFS threshold is not kept.
pub proof fn lemma_absolute_gate_strict(p: Seq<u64>, w: Seq<u64>)
    requires
        spec_block_loudness(p, w) == ABSOLUTE_THRESHOLD_BITS,
    ensures
        !keeps_absolute(p, w),
{
    lemma_gt_irreflexive(ABSOLUTE_THRESHOLD_BITS);
}

/// A block the absolute gate drops leaves the kept sequence unchanged.
pub proof fn lemma_absolute_gate_excludes(ps: Seq<Seq<u64>>, p: Seq<u64>, w: Seq<u64>)
    requires
        !keeps_absolute(p, w),
    ensures
        spec_absolutely_loud(ps.push(p), w) == spec_absolutely_loud(ps, w),
{
    assert(ps.push(p).drop_last() =~= ps);
}

/// The relative gate is strict: a block whose loudness is exactly the
/// relative threshold is not kept.
pub proof fn lemma_relative_gate_strict(p: Seq<u64>, w: Seq<u64>, threshold: u64)
    requires
        spec_block_loudness(p, w) == threshold,
    ensures
        !keeps_relative(p, w, threshold),
{
    lemma_gt_irreflexive(threshold);
}

/// A block the relative gate drops leaves the kept sequence unchanged.
pub proof fn lemma_relative_gate_excludes(
    rs: Seq<Seq<u64>>,
    p: Seq<u64>,
    w: Seq<u64>,
    threshold: u64,
)
    requires
        !keeps_relative(p, w, threshold),
    ensures
        spec_relatively_loud(rs.push(p), w, threshold) == spec_relatively_loud(rs, w, threshold),
{
    assert(rs.push(p).drop_last() =~= rs);
}

/// Copy one power vector.
fn copy_frame(v: &Vec<u64>) -> (r: Vec<u64>)
    ensures
        r@ == v@,
{
    let n = v.len();
    let mut r: Vec<u64> = Vec::new();
    let mut i: usize = 0;
    while i < n
        invariant
            i <= n,
            v@.len() == n,
            r@.len() == i,
            forall|k: int| 0 <= k < i ==> r@[k] == v@[k],
        decreases n - i,
    {
        r.push(v[i]);
        i += 1;
    }
    proof {
        assert(r@ =~= v@);
    }
    r
}

/// Integrated loudness measurement.
pub struct Loudness;

impl Loudness {
    /// The three-pass gated loudness of a finite sequence of per-block
    /// per-channel power vectors under fixed channel weights. The first
    /// pass keeps the blocks strictly above -70.0 LKFS and averages them;
    /// the second derives the relative threshold from that average; the
    /// third averages the kept blocks strictly above the relative
    /// threshold, and the result is the loudness of that average. If no
    /// block passes a gate, the mean it feeds divides zero by zero and the
    /// result is a NaN pattern: the documented degenerate outcome for an
    /// empty or entirely gated-out input.
    pub fn from_gated_powers(gated_powers: &Vec<Vec<u64>>, channel_weights: &Vec<u64>) -> (r: u64)
        requires
            forall|j: int|
                0 <= j < gated_powers@.len() ==> (#[trigger] gated_powers@[j])@.len()
                    == channel_weights@.len(),
        ensures
            r == spec_gated_loudness(frames_view(gated_powers@), channel_weights@),
    {
        let ghost fv = frames_view(gated_powers@);
        let ghost w = channel_weights@;
        let channels = channel_weights.len();
        let n = gated_powers.len();

        let mut averager = Stats::new(channels);
        let mut kept_louds: Vec<u64> = Vec::new();
        let mut kept_blocks: Vec<Vec<u64>> = Vec::new();
        let mut j: usize = 0;
        while j < n
            invariant
                j <= n,
                n == gated_powers@.len(),
                channels == w.len(),
                fv == frames_view(gated_powers@),
                w == channel_weights@,
                forall|k: int| 0 <= k < n ==> (#[trigger] gated_powers@[k])@.len() == channels,
                frames_view(kept_blocks@) == spec_absolutely_loud(fv.take(j as int), w),
                kept_louds@.len() == kept_blocks@.len(),
                forall|k: int|
                    0 <= k < kept_blocks@.len() ==> (#[trigger] kept_blocks@[k])@.len() == channels,
                forall|k: int|
                    0 <= k < kept_louds@.len() ==> #[trigger] kept_louds@[k] == spec_block_loudness(
                        kept_blocks@[k]@,
                        w,
                    ),
                kept_blocks@.len() <= j,
                averager.count == kept_blocks@.len(),
                averager.sums@ == spec_sums(frames_view(kept_blocks@), channels as nat),
            decreases n - j,
        {
            let bl = block_loudness(&gated_powers[j], channel_weights);
            proof {
                assert(fv.take(j + 1).drop_last() =~= fv.take(j as int));
                assert(fv.take(j + 1).last() == gated_powers@[j as int]@);
            }
            if gt64(bl, ABSOLUTE_THRESHOLD_BITS) {
                let ghost pre_kept = kept_blocks@;
                averager.add(&gated_powers[j]);
                kept_louds.push(bl);
                kept_blocks.push(copy_frame(&gated_powers[j]));
                proof {
                    assert(frames_view(kept_blocks@) =~= frames_view(pre_kept).push(
                        gated_powers@[j as int]@,
                    ));
                    assert(frames_view(kept_blocks@).drop_last() =~= frames_view(pre_kept));
                    assert(averager.sums@ =~= spec_sums(
                        frames_view(kept_blocks@),
                        channels as nat,
                    ));
                }
            }
            j += 1;
        }
        proof {
            assert(fv.take(n as int) =~= fv);
        }

        let abs_mean = averager.mean();
        proof {
            assert(abs_mean@ =~= spec_mean(spec_absolutely_loud(fv, w), channels as nat));
        }
        let absolute_loudness = block_loudness(&abs_mean, channel_weights);
        let relative_threshold = sub64(absolute_loudness, TEN_BITS);
        let ghost threshold = spec_relative_threshold(fv, w);
        let ghost rsv = frames_view(kept_blocks@);

        let mut relative_averager = Stats::new(channels);
        let kept_n = kept_blocks.len();
        let mut i: usize = 0;
        while i < kept_n
            invariant
                i <= kept_n,
                channels == w.len(),
                w == channel_weights@,
                kept_n == kept_blocks@.len(),
                kept_louds@.len() == kept_blocks@.len(),
                rsv == frames_view(kept_blocks@),
                forall|k: int|
                    0 <= k < kept_blocks@.len() ==> (#[trigger] kept_blocks@[k])@.len() == channels,
                forall|k: int|
                    0 <= k < kept_louds@.len() ==> #[trigger] kept_louds@[k] == spec_block_loudness(
                        kept_blocks@[k]@,
                        w,
                    ),
                relative_threshold == threshold,
                relative_averager.count <= i,
                relative_averager.count == spec_relatively_loud(
                    rsv.take(i as int),
                    w,
                    threshold,
                ).len(),
                relative_averager.sums@ == spec_sums(
                    spec_relatively_loud(rsv.take(i as int), w, threshold),
                    channels as nat,
                ),
            decreases kept_n - i,
        {
            proof {
                assert(rsv.take(i + 1).drop_last() =~= rsv.take(i as int));
                assert(rsv.take(i + 1).last() == kept_blocks@[i as int]@);
            }
            if gt64(kept_louds[i], relative_threshold) {
                relative_averager.add(&kept_blocks[i]);
                proof {
                    assert(spec_relatively_loud(rsv.take(i + 1), w, threshold).drop_last()
                        =~= spec_relatively_loud(rsv.take(i as int), w, threshold));
                    assert(relative_averager.sums@ =~= spec_sums(
                        spec_relatively_loud(rsv.take(i + 1), w, threshold),
                        channels as nat,
                    ));
                }
            }
            i += 1;
        }
        proof {
            assert(rsv.take(kept_n as int) =~= rsv);
        }

        let rel_mean = relative_averager.mean();
        proof {
            assert(rel_mean@ =~= spec_mean(
                spec_relatively_loud(rsv, w, threshold),
                channels as nat,
            ));
        }
        block_loudness(&rel_mean, channel_weights)
    }
}

} // verus!
