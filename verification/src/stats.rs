//! Power statistics: a per-channel running arithmetic mean over an unbounded
//! count of added power vectors.
//!
//! The accumulator holds the per-channel binary64 sum of everything added so
//! far, and the count of additions; the mean divides each channel's sum by
//! the count. Reading the mean before any addition divides zero by zero,
//! which yields the bit pattern of a NaN: a documented degenerate case, not
//! an error this library detects.

use vstd::prelude::*;
use crate::scalar::{add_of, div_of, f64_of_count, add64, div64, count_to_bits, ZERO_BITS};

verus! {

/// Running per-channel power statistics.
pub struct Stats {
    /// Per-channel binary64 sum of every vector added, as bit patterns.
    pub sums: Vec<u64>,
    /// How many vectors have been added.
    pub count: usize,
}

/// A vector of `channels` zero samples: the accumulator's starting point.
pub open spec fn spec_zero_frame(channels: nat) -> Seq<u64> {
    Seq::new(channels, |i: int| ZERO_BITS)
}

/// Allocate a frame of `channels` zero samples.
pub fn zero_frame(channels: usize) -> (r: Vec<u64>)
    ensures
        r@ == spec_zero_frame(channels as nat),
{
    let mut r: Vec<u64> = Vec::new();
    let mut i: usize = 0;
    while i < channels
        invariant
            i <= channels,
            r@.len() == i,
            forall|k: int| 0 <= k < i ==> r@[k] == ZERO_BITS,
        decreases channels - i,
    {
        r.push(ZERO_BITS);
        i += 1;
    }
    proof {
        assert(r@ =~= spec_zero_frame(channels as nat));
    }
    r
}

impl Stats {
    /// The channel count this accumulator was created for.
    pub open spec fn channels(&self) -> nat {
        self.sums@.len()
    }

    /// A fresh accumulator over `channels` channels: zero sums, zero count.
    pub fn new(channels: usize) -> (r: Self)
        ensures
            r.count == 0,
            r.sums@ == spec_zero_frame(channels as nat),
    {
        Stats { sums: zero_frame(channels), count: 0 }
    }

    /// Incorporate one power vector: each channel's sum grows by that
    /// channel's power, and the count grows by one.
    pub fn add(&mut self, powers: &Vec<u64>)
        requires
            powers@.len() == old(self).channels(),
            old(self).count < usize::MAX,
        ensures
            final(self).count == old(self).count + 1,
            final(self).sums@.len() == old(self).sums@.len(),
            forall|i: int|
                0 <= i < final(self).sums@.len() ==> final(self).sums@[i] == add_of(
                    old(self).sums@[i],
                    powers@[i],
                ),
    {
        let n = self.sums.len();
        let mut i: usize = 0;
        while i < n
            invariant
                i <= n,
                self.sums@.len() == n,
                self.count == old(self).count,
                powers@.len() == n,
                forall|k: int| 0 <= k < i ==> self.sums@[k] == add_of(old(self).sums@[k], powers@[k]),
                forall|k: int| i <= k < n ==> self.sums@[k] == old(self).sums@[k],
            decreases n - i,
        {
            let v = add64(self.sums[i], powers[i]);
            self.sums.set(i, v);
            i += 1;
        }
        self.count = self.count + 1;
    }

    /// The current arithmetic mean: each channel's sum divided by the count.
    /// With a count of zero this divides zero by zero, so each channel of
    /// the result is the bit pattern of a NaN.
    pub fn mean(&self) -> (r: Vec<u64>)
        ensures
            r@.len() == self.sums@.len(),
            forall|i: int|
                0 <= i < r@.len() ==> r@[i] == div_of(self.sums@[i], f64_of_count(self.count)),
    {
        let c = count_to_bits(self.count);
        let n = self.sums.len();
        let mut r: Vec<u64> = Vec::new();
        let mut i: usize = 0;
        while i < n
            invariant
                i <= n,
                r@.len() == i,
                self.sums@.len() == n,
                c == f64_of_count(self.count),
                forall|k: int|
                    0 <= k < i ==> r@[k] == div_of(self.sums@[k], f64_of_count(self.count)),
            decreases n - i,
        {
            r.push(div64(self.sums[i], c));
            i += 1;
        }
        r
    }
}

} // verus!
