//! Scheduling-latency diagnostic: given successive readings of a
//! high-resolution cycle counter, find the smallest and largest gap
//! between consecutive readings. Large gaps expose scheduler-induced
//! stalls of the sampling loop. The counter itself is read by the caller;
//! this module only folds the readings.

use vstd::prelude::*;
use crate::buffer::min_int;

verus! {

/// Starting value of the running minimum, larger than any gap a tight
/// sampling loop sees.
pub const MIN_GAP_SEED: i64 = 1_000_000_000;

/// Counter readings stay well inside the representable range, so that a
/// gap between two of them always fits the type.
pub open spec fn readings_bounded(s: Seq<i64>) -> bool {
    forall|i: int| 0 <= i < s.len() ==> 0 <= #[trigger] s[i] <= 0x3fff_ffff_ffff_ffff
}

/// The larger of two mathematical integers.
pub open spec fn max_int(a: int, b: int) -> int {
    if a >= b {
        a
    } else {
        b
    }
}

/// Smallest gap between consecutive readings among the first `n`, seeded
/// with `MIN_GAP_SEED`.
pub open spec fn min_gap(s: Seq<i64>, n: int) -> int
    decreases n,
{
    if n <= 1 {
        MIN_GAP_SEED as int
    } else {
        min_int(min_gap(s, n - 1), s[n - 1] - s[n - 2])
    }
}

/// Largest gap between consecutive readings among the first `n`, seeded
/// with zero.
pub open spec fn max_gap(s: Seq<i64>, n: int) -> int
    decreases n,
{
    if n <= 1 {
        0
    } else {
        max_int(max_gap(s, n - 1), s[n - 1] - s[n - 2])
    }
}

/// Fold a run of counter readings into the (smallest, largest) gap between
/// consecutive readings, seeded as the running diagnostic is.
pub fn rdtsc_loop(samples: &Vec<i64>) -> (r: (i64, i64))
    requires
        samples@.len() >= 1,
        readings_bounded(samples@),
    ensures
        r.0 == min_gap(samples@, samples@.len() as int),
        r.1 == max_gap(samples@, samples@.len() as int),
{
    let mut mindiff: i64 = MIN_GAP_SEED;
    let mut maxdiff: i64 = 0;
    let mut oldv: i64 = samples[0];
    let mut i: usize = 1;
    while i < samples.len()
        invariant
            1 <= i <= samples@.len(),
            readings_bounded(samples@),
            oldv == samples@[i - 1],
            mindiff == min_gap(samples@, i as int),
            maxdiff == max_gap(samples@, i as int),
        decreases samples@.len() - i,
    {
        let newv = samples[i];
        let diff = newv - oldv;
        if diff > maxdiff {
            maxdiff = diff;
        }
        if diff < mindiff {
            mindiff = diff;
        }
        oldv = newv;
        i += 1;
    }
    (mindiff, maxdiff)
}

} // verus!
