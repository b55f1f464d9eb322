//! Fixed-size duration histogram with exact extrema and bucketed quantiles.

use crate::outside::{as_nanos, duration_nanos};
use std::time::Duration;
use vstd::prelude::*;

verus! {

/// Number of histogram buckets, the last one catching overflow.
pub const BUCKETS: usize = 141;

/// Fixed histogram: 25us buckets to 1ms, 100us to 5ms, 250us to 20ms,
/// then overflow. Totals and extrema retain exact nanoseconds (saturating u64).
#[derive(Debug, Clone)]
pub struct Histogram {
    /// Samples per bucket.
    pub bins: [u64; 141],
    /// Number of samples.
    pub count: u64,
    /// Sum of all samples.
    pub total_ns: u64,
    /// Smallest sample, or `u64::MAX` while empty.
    pub min_ns: u64,
    /// Largest sample.
    pub max_ns: u64,
}

/// Summary suitable for serialization on a background thread.
#[derive(Debug, Clone, Copy, PartialEq, Eq, Structural)]
pub struct HistogramSummary {
    /// Number of samples.
    pub count: u64,
    /// Sum of sample durations in nanoseconds.
    pub total_ns: u64,
    /// Exact smallest sample in nanoseconds, or zero when empty.
    pub min_ns: u64,
    /// Exact largest sample in nanoseconds.
    pub max_ns: u64,
    /// 1st percentile bucket upper bound, capped at maximum.
    pub p01_ns: u64,
    /// 5th percentile bucket upper bound, capped at maximum.
    pub p05_ns: u64,
    /// Median bucket upper bound, capped at maximum.
    pub p50_ns: u64,
    /// 95th percentile bucket upper bound, capped at maximum.
    pub p95_ns: u64,
    /// 99th percentile bucket upper bound, capped at maximum.
    pub p99_ns: u64,
}

/// What a histogram holds.
#[verifier::ext_equal]
pub struct HistogramView {
    pub bins: Seq<u64>,
    pub count: u64,
    pub total_ns: u64,
    pub min_ns: u64,
    pub max_ns: u64,
}

impl View for Histogram {
    type V = HistogramView;

    open spec fn view(&self) -> HistogramView {
        HistogramView {
            bins: self.bins@,
            count: self.count,
            total_ns: self.total_ns,
            min_ns: self.min_ns,
            max_ns: self.max_ns,
        }
    }
}

/// The histogram without samples.
pub open spec fn empty_histogram() -> HistogramView {
    HistogramView {
        bins: Seq::new(BUCKETS as nat, |i: int| 0u64),
        count: 0,
        total_ns: 0,
        min_ns: u64::MAX,
        max_ns: 0,
    }
}

/// Largest duration, in nanoseconds, that falls into bucket `i`. The last bucket has none.
pub open spec fn bucket_upper(i: int) -> int {
    if i < 40 {
        (i + 1) * 25_000
    } else if i < 80 {
        1_000_000 + (i - 39) * 100_000
    } else {
        5_000_000 + (i - 79) * 250_000
    }
}

/// `ns` is above every earlier bucket and, unless `i` is the overflow bucket, not above this one.
pub open spec fn in_bucket(ns: u64, i: int) -> bool {
    &&& 0 <= i < BUCKETS
    &&& i == 0 || bucket_upper(i - 1) < ns
    &&& i == BUCKETS - 1 || ns <= bucket_upper(i)
}

/// The bucket that `ns` falls into.
pub open spec fn bucket(ns: u64) -> int {
    if ns <= 1_000_000 {
        if ns == 0 {
            0
        } else {
            (ns - 1) / 25_000
        }
    } else if ns <= 5_000_000 {
        40 + (ns - 1_000_001) / 100_000
    } else if ns <= 20_000_000 {
        80 + (ns - 5_000_001) / 250_000
    } else {
        140
    }
}

/// Nanoseconds of a duration as a histogram keeps them.
pub open spec fn clamp_nanos(nanos: u128) -> u64 {
    if nanos > u64::MAX {
        u64::MAX
    } else {
        nanos as u64
    }
}

/// The histogram `h` with one more sample of `ns` nanoseconds.
pub open spec fn recorded(h: HistogramView, ns: u64) -> HistogramView {
    HistogramView {
        bins: h.bins.update(bucket(ns), h.bins[bucket(ns)].saturating_add(1)),
        count: h.count.saturating_add(1),
        total_ns: h.total_ns.saturating_add(ns),
        min_ns: if ns < h.min_ns { ns } else { h.min_ns },
        max_ns: if ns > h.max_ns { ns } else { h.max_ns },
    }
}

/// Number of samples in the first `n` buckets.
pub open spec fn samples_below(bins: Seq<u64>, n: int) -> nat
    decreases n,
{
    if n <= 0 {
        0
    } else {
        samples_below(bins, n - 1) + bins[n - 1] as nat
    }
}

/// What a saturating running count of the first `n` buckets shows.
pub open spec fn seen_below(bins: Seq<u64>, n: int) -> u64 {
    if samples_below(bins, n) > u64::MAX {
        u64::MAX
    } else {
        samples_below(bins, n) as u64
    }
}

/// One-based position, among the sorted samples, of the `percentile`: `ceil(count * percentile%)`.
pub open spec fn quantile_rank(count: u64, percentile: u64) -> u64 {
    ((count * percentile + 99) / 100) as u64
}

/// First bucket, from `from` on, at which the running count reaches `rank`; `BUCKETS` if none does.
pub open spec fn rank_bucket(bins: Seq<u64>, rank: u64, from: int) -> int
    decreases BUCKETS - from,
{
    if from >= BUCKETS {
        BUCKETS as int
    } else if seen_below(bins, from + 1) >= rank {
        from
    } else {
        rank_bucket(bins, rank, from + 1)
    }
}

/// Upper bound of the bucket that holds the sample of rank `ceil(count * percentile%)`, capped at
/// the exact maximum; the overflow bucket's bound is that maximum.
pub open spec fn quantile_of(h: HistogramView, percentile: u64) -> u64 {
    if h.count == 0 {
        0
    } else {
        let i = rank_bucket(h.bins, quantile_rank(h.count, percentile), 0);
        if i < BUCKETS - 1 && bucket_upper(i) < h.max_ns {
            bucket_upper(i) as u64
        } else {
            h.max_ns
        }
    }
}

/// What [`Histogram::summary`] reports of `h`.
pub open spec fn summary_of(h: HistogramView) -> HistogramSummary {
    HistogramSummary {
        count: h.count,
        total_ns: h.total_ns,
        min_ns: if h.count == 0 { 0 } else { h.min_ns },
        max_ns: h.max_ns,
        p01_ns: quantile_of(h, 1),
        p05_ns: quantile_of(h, 5),
        p50_ns: quantile_of(h, 50),
        p95_ns: quantile_of(h, 95),
        p99_ns: quantile_of(h, 99),
    }
}

impl Default for Histogram {
    fn default() -> (h: Self)
        ensures
            h@ == empty_histogram(),
    {
        let h = Histogram {
            bins: [0; 141],
            count: 0,
            total_ns: 0,
            min_ns: u64::MAX,
            max_ns: 0,
        };
        assert(h@ =~= empty_histogram());
        h
    }
}

impl Default for HistogramSummary {
    fn default() -> (s: Self)
        ensures
            s == (HistogramSummary {
                count: 0,
                total_ns: 0,
                min_ns: 0,
                max_ns: 0,
                p01_ns: 0,
                p05_ns: 0,
                p50_ns: 0,
                p95_ns: 0,
                p99_ns: 0,
            }),
    {
        HistogramSummary {
            count: 0,
            total_ns: 0,
            min_ns: 0,
            max_ns: 0,
            p01_ns: 0,
            p05_ns: 0,
            p50_ns: 0,
            p95_ns: 0,
            p99_ns: 0,
        }
    }
}

impl Histogram {
    /// Adds a duration, clamped to `u64` nanoseconds.
    pub fn record(&mut self, duration: Duration)
        ensures
            final(self)@ == recorded(old(self)@, clamp_nanos(duration_nanos(duration))),
    {
        let nanos: u128 = as_nanos(duration);
        self.record_nanos(nanos);
    }

    /// Adds a sample of `nanos` nanoseconds, clamped to `u64`.
    pub fn record_nanos(&mut self, nanos: u128)
        ensures
            final(self)@ == recorded(old(self)@, clamp_nanos(nanos)),
    {
        let ns: u64 = if nanos > u64::MAX as u128 { u64::MAX } else { nanos as u64 };
        let index: usize = if ns <= 1_000_000 {
            (ns.saturating_sub(1) / 25_000) as usize
        } else if ns <= 5_000_000 {
            (40 + (ns - 1_000_001) / 100_000) as usize
        } else if ns <= 20_000_000 {
            (80 + (ns - 5_000_001) / 250_000) as usize
        } else {
            140
        };
        self.bins[index] = self.bins[index].saturating_add(1);
        self.count = self.count.saturating_add(1);
        self.total_ns = self.total_ns.saturating_add(ns);
        if ns < self.min_ns {
            self.min_ns = ns;
        }
        if ns > self.max_ns {
            self.max_ns = ns;
        }
    }

    /// Upper bound of the bucket holding the given percentile, capped at the maximum.
    pub fn quantile(&self, percentile: u64) -> (ns: u64)
        ensures
            ns == quantile_of(self@, percentile),
    {
        if self.count == 0 {
            return 0;
        }
        proof {
            let count = self.count as int;
            let p = percentile as int;
            assert(0 <= count * p <= 0xffff_ffff_ffff_ffff * 0xffff_ffff_ffff_ffff)
                by (nonlinear_arith)
                requires
                    0 <= count <= 0xffff_ffff_ffff_ffff,
                    0 <= p <= 0xffff_ffff_ffff_ffff,
            ;
        }
        let scaled: u128 = self.count as u128 * percentile as u128;
        let rank: u64 = ((scaled + 99) / 100) as u64;
        let ghost bins = self.bins@;
        let mut seen: u64 = 0;
        let mut i: usize = 0;
        while i < BUCKETS
            invariant
                i <= BUCKETS,
                bins == self.bins@,
                self.count != 0,
                rank == quantile_rank(self.count, percentile),
                seen == seen_below(bins, i as int),
                rank_bucket(bins, rank, 0) == rank_bucket(bins, rank, i as int),
            decreases BUCKETS - i,
        {
            seen = seen.saturating_add(self.bins[i]);
            assert(seen == seen_below(bins, i + 1));
            if seen >= rank {
                let upper: u64 = if i < 40 {
                    (i as u64 + 1) * 25_000
                } else if i < 80 {
                    1_000_000 + (i as u64 - 39) * 100_000
                } else if i < 140 {
                    5_000_000 + (i as u64 - 79) * 250_000
                } else {
                    self.max_ns
                };
                if upper < self.max_ns {
                    return upper;
                }
                return self.max_ns;
            }
            i += 1;
        }
        self.max_ns
    }

    /// Compute approximate quantiles; overflow quantiles use the exact maximum.
    pub fn summary(&self) -> (summary: HistogramSummary)
        ensures
            summary == summary_of(self@),
    {
        HistogramSummary {
            count: self.count,
            total_ns: self.total_ns,
            min_ns: if self.count == 0 { 0 } else { self.min_ns },
            max_ns: self.max_ns,
            p01_ns: self.quantile(1),
            p05_ns: self.quantile(5),
            p50_ns: self.quantile(50),
            p95_ns: self.quantile(95),
            p99_ns: self.quantile(99),
        }
    }

    /// Leaves an empty histogram behind and returns what was recorded.
    pub fn take(&mut self) -> (taken: Histogram)
        ensures
            taken@ == old(self)@,
            final(self)@ == empty_histogram(),
    {
        let mut taken = Histogram::default();
        std::mem::swap(self, &mut taken);
        taken
    }
}

} // verus!
