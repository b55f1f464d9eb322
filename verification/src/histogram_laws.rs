//! What a histogram says of the samples it recorded.

use crate::histogram::{
    bucket, bucket_upper, clamp_nanos, empty_histogram, in_bucket, quantile_of, quantile_rank,
    rank_bucket, recorded, samples_below, seen_below, summary_of, HistogramSummary, HistogramView,
    BUCKETS,
};
use vstd::prelude::*;

verus! {

/// The histogram after recording `samples` in order.
pub open spec fn histogram_of(samples: Seq<u64>) -> HistogramView
    decreases samples.len(),
{
    if samples.len() == 0 {
        empty_histogram()
    } else {
        recorded(histogram_of(samples.drop_last()), samples.last())
    }
}

/// Number of `samples` that fall into the first `n` buckets.
pub open spec fn count_in_first(samples: Seq<u64>, n: int) -> nat
    decreases samples.len(),
{
    if samples.len() == 0 {
        0
    } else {
        count_in_first(samples.drop_last(), n) + if bucket(samples.last()) < n { 1nat } else { 0 }
    }
}

/// Number of `samples` that are at most `bound`.
pub open spec fn count_at_most(samples: Seq<u64>, bound: int) -> nat
    decreases samples.len(),
{
    if samples.len() == 0 {
        0
    } else {
        count_at_most(samples.drop_last(), bound) + if samples.last() <= bound { 1nat } else { 0 }
    }
}

/// Sum of `samples`.
pub open spec fn sum_of(samples: Seq<u64>) -> nat
    decreases samples.len(),
{
    if samples.len() == 0 {
        0
    } else {
        sum_of(samples.drop_last()) + samples.last() as nat
    }
}

/// Buckets partition the durations: each duration lies in exactly one of them.
pub proof fn buckets_partition(ns: u64, i: int)
    ensures
        in_bucket(ns, bucket(ns)),
        in_bucket(ns, i) ==> i == bucket(ns),
{
}

/// Recording is independent of order: swapping two neighbouring samples changes nothing.
pub proof fn recording_commutes(h: HistogramView, a: u64, b: u64)
    requires
        h.bins.len() == BUCKETS,
    ensures
        recorded(recorded(h, a), b) == recorded(recorded(h, b), a),
{
    buckets_partition(a, 0);
    buckets_partition(b, 0);
    assert(recorded(recorded(h, a), b).bins =~= recorded(recorded(h, b), a).bins);
}

/// An empty histogram summarizes to zeros.
pub proof fn empty_summary_is_zero()
    ensures
        summary_of(empty_histogram()) == (HistogramSummary {
            count: 0,
            total_ns: 0,
            min_ns: 0,
            max_ns: 0,
            p01_ns: 0,
            p05_ns: 0,
            p50_ns: 0,
            p95_ns: 0,
            p99_ns: 0,
        }),
{
}

/// Count, total and extrema are exact: the number and the sum of the samples (saturating at
/// `u64::MAX`), and the smallest and largest sample. Nothing else fills a bucket.
pub proof fn totals_and_extrema_are_exact(samples: Seq<u64>)
    ensures
        ({
            let h = histogram_of(samples);
            &&& h.bins.len() == BUCKETS
            &&& h.count == if samples.len() > u64::MAX { u64::MAX as nat } else { samples.len() }
            &&& h.total_ns == if sum_of(samples) > u64::MAX {
                u64::MAX as nat
            } else {
                sum_of(samples)
            }
            &&& forall|k: int|
                0 <= k < samples.len() ==> h.min_ns <= #[trigger] samples[k] <= h.max_ns
            &&& samples.len() > 0 ==> samples.contains(h.min_ns) && samples.contains(h.max_ns)
            &&& samples.len() == 0 ==> h == empty_histogram()
        }),
    decreases samples.len(),
{
    if samples.len() > 0 {
        let rest = samples.drop_last();
        let last = samples.last();
        totals_and_extrema_are_exact(rest);
        buckets_partition(last, 0);
        let h = histogram_of(samples);
        let before = histogram_of(rest);
        assert(samples[samples.len() - 1] == last);
        assert forall|k: int| 0 <= k < samples.len() implies h.min_ns <= #[trigger] samples[k]
            <= h.max_ns by {
            if k < rest.len() {
                assert(rest[k] == samples[k]);
            }
        }
        if rest.len() > 0 {
            let lo = choose|k: int| 0 <= k < rest.len() && rest[k] == before.min_ns;
            let hi = choose|k: int| 0 <= k < rest.len() && rest[k] == before.max_ns;
            assert(samples[lo] == before.min_ns);
            assert(samples[hi] == before.max_ns);
        }
    }
}

proof fn lemma_samples_below_update(bins: Seq<u64>, b: int, value: u64, n: int)
    requires
        0 <= b < bins.len(),
        0 <= n <= bins.len(),
    ensures
        samples_below(bins.update(b, value), n) == samples_below(bins, n) + (if b < n {
            value - bins[b]
        } else {
            0
        }),
    decreases n,
{
    if n > 0 {
        lemma_samples_below_update(bins, b, value, n - 1);
    }
}

proof fn lemma_samples_below_grows(bins: Seq<u64>, m: int, n: int)
    requires
        m <= n,
    ensures
        samples_below(bins, m) <= samples_below(bins, n),
    decreases n - m,
{
    if m < n {
        lemma_samples_below_grows(bins, m, n - 1);
    }
}

proof fn lemma_counts_are_bounded(samples: Seq<u64>, n: int)
    ensures
        count_in_first(samples, n) <= samples.len(),
        n >= BUCKETS ==> count_in_first(samples, n) == samples.len(),
    decreases samples.len(),
{
    if samples.len() > 0 {
        lemma_counts_are_bounded(samples.drop_last(), n);
        buckets_partition(samples.last(), 0);
    }
}

/// While fewer than `u64::MAX` samples are recorded, the first `n` buckets hold exactly the
/// samples that fall into them: no sample is lost and none is counted twice.
pub proof fn buckets_hold_their_samples(samples: Seq<u64>, n: int)
    requires
        samples.len() <= u64::MAX,
        0 <= n <= BUCKETS,
    ensures
        samples_below(histogram_of(samples).bins, n) == count_in_first(samples, n),
    decreases samples.len(),
{
    totals_and_extrema_are_exact(samples);
    if samples.len() == 0 {
        lemma_empty_below(n);
    } else {
        let rest = samples.drop_last();
        let b = bucket(samples.last());
        let bins = histogram_of(rest).bins;
        buckets_partition(samples.last(), 0);
        totals_and_extrema_are_exact(rest);
        buckets_hold_their_samples(rest, n);
        buckets_hold_their_samples(rest, BUCKETS as int);
        lemma_counts_are_bounded(rest, BUCKETS as int);
        lemma_samples_below_grows(bins, b + 1, BUCKETS as int);
        assert(bins[b] < u64::MAX);
        lemma_samples_below_update(bins, b, bins[b].saturating_add(1), n);
    }
}

proof fn lemma_empty_below(n: int)
    requires
        n <= BUCKETS,
    ensures
        samples_below(empty_histogram().bins, n) == 0,
    decreases n,
{
    if n > 0 {
        lemma_empty_below(n - 1);
    }
}

proof fn lemma_rank_bucket(bins: Seq<u64>, rank: u64, from: int)
    requires
        0 <= from <= BUCKETS,
    ensures
        from <= rank_bucket(bins, rank, from) <= BUCKETS,
        rank_bucket(bins, rank, from) < BUCKETS ==> seen_below(
            bins,
            rank_bucket(bins, rank, from) + 1,
        ) >= rank,
        forall|j: int|
            from <= j < rank_bucket(bins, rank, from) ==> #[trigger] seen_below(bins, j + 1)
                < rank,
    decreases BUCKETS - from,
{
    if from < BUCKETS && seen_below(bins, from + 1) < rank {
        lemma_rank_bucket(bins, rank, from + 1);
    }
}

proof fn lemma_rank_range(count: u64, percentile: u64)
    requires
        percentile <= 100,
    ensures
        quantile_rank(count, percentile) == (count * percentile + 99) / 100,
        quantile_rank(count, percentile) <= count,
        percentile == 100 ==> quantile_rank(count, percentile) == count,
        count > 0 && percentile > 0 ==> quantile_rank(count, percentile) > 0,
{
    let c = count as int;
    let p = percentile as int;
    assert(0 <= c * p <= c * 100) by (nonlinear_arith)
        requires
            0 <= c,
            0 <= p <= 100,
    ;
    if c > 0 && p > 0 {
        assert(c * p >= 1) by (nonlinear_arith)
            requires
                c >= 1,
                p >= 1,
        ;
    }
}

proof fn lemma_first_buckets_are_at_most(samples: Seq<u64>, i: int, bound: int)
    requires
        0 <= i < BUCKETS,
        forall|k: int|
            0 <= k < samples.len() && bucket(samples[k]) <= i ==> #[trigger] samples[k] <= bound,
    ensures
        count_in_first(samples, i + 1) <= count_at_most(samples, bound),
    decreases samples.len(),
{
    if samples.len() > 0 {
        let rest = samples.drop_last();
        assert forall|k: int| 0 <= k < rest.len() && bucket(rest[k]) <= i implies #[trigger] rest[k]
            <= bound by {
            assert(rest[k] == samples[k]);
        }
        lemma_first_buckets_are_at_most(rest, i, bound);
        assert(samples[samples.len() - 1] == samples.last());
    }
}

proof fn lemma_some_sample_at_most(samples: Seq<u64>, bound: int)
    requires
        count_at_most(samples, bound) > 0,
    ensures
        exists|k: int| 0 <= k < samples.len() && #[trigger] samples[k] <= bound,
    decreases samples.len(),
{
    if samples.last() <= bound {
        assert(samples[samples.len() - 1] <= bound);
    } else {
        lemma_some_sample_at_most(samples.drop_last(), bound);
        let k = choose|k: int|
            0 <= k < samples.drop_last().len() && #[trigger] samples.drop_last()[k] <= bound;
        assert(samples[k] <= bound);
    }
}

/// A quantile is a bucket bound around the exact percentile. With `rank` the percentile's position
/// among the sorted samples: at least `rank` samples are no larger than the quantile, the earlier
/// buckets hold fewer than `rank` samples, and the quantile lies between the extrema.
pub proof fn quantile_bounds_the_percentile(samples: Seq<u64>, percentile: u64)
    requires
        0 < samples.len() <= u64::MAX,
        0 < percentile <= 100,
    ensures
        ({
            let h = histogram_of(samples);
            let rank = quantile_rank(h.count, percentile);
            let i = rank_bucket(h.bins, rank, 0);
            &&& 0 < rank <= samples.len()
            &&& 0 <= i < BUCKETS
            &&& count_at_most(samples, quantile_of(h, percentile) as int) >= rank
            &&& count_in_first(samples, i) < rank <= count_in_first(samples, i + 1)
            &&& h.min_ns <= quantile_of(h, percentile) <= h.max_ns
            &&& i == BUCKETS - 1 ==> quantile_of(h, percentile) == h.max_ns
        }),
{
    let h = histogram_of(samples);
    let rank = quantile_rank(h.count, percentile);
    let i = rank_bucket(h.bins, rank, 0);
    let q = quantile_of(h, percentile);
    totals_and_extrema_are_exact(samples);
    lemma_rank_range(h.count, percentile);
    lemma_rank_bucket(h.bins, rank, 0);
    buckets_hold_their_samples(samples, BUCKETS as int);
    lemma_counts_are_bounded(samples, BUCKETS as int);
    if i == BUCKETS {
        assert(seen_below(h.bins, (BUCKETS - 1) + 1) < rank);
    }
    buckets_hold_their_samples(samples, i);
    buckets_hold_their_samples(samples, i + 1);
    lemma_counts_are_bounded(samples, i);
    lemma_counts_are_bounded(samples, i + 1);
    if i > 0 {
        assert(seen_below(h.bins, (i - 1) + 1) < rank);
    }
    assert forall|k: int| 0 <= k < samples.len() && bucket(samples[k]) <= i implies #[trigger] samples[k]
        <= q by {
        buckets_partition(samples[k], 0);
        assert(samples[k] <= h.max_ns);
    }
    lemma_first_buckets_are_at_most(samples, i, q as int);
    lemma_some_sample_at_most(samples, q as int);
}

/// Quantiles never decrease as the percentile grows.
pub proof fn quantiles_are_monotone(h: HistogramView, p: u64, q: u64)
    requires
        p <= q <= 100,
    ensures
        quantile_of(h, p) <= quantile_of(h, q),
{
    lemma_rank_range(h.count, p);
    lemma_rank_range(h.count, q);
    let c = h.count as int;
    assert(c * p <= c * q) by (nonlinear_arith)
        requires
            0 <= c,
            p <= q,
    ;
    let low = quantile_rank(h.count, p);
    let high = quantile_rank(h.count, q);
    lemma_rank_bucket(h.bins, low, 0);
    lemma_rank_bucket(h.bins, high, 0);
    let i = rank_bucket(h.bins, low, 0);
    let j = rank_bucket(h.bins, high, 0);
    if j < i {
        assert(seen_below(h.bins, j + 1) < low);
    }
}

/// A sample rounded up to the bound of its bucket; one in the overflow bucket has no bound but the
/// maximum.
pub open spec fn rounded_up(ns: u64, max_ns: u64) -> int {
    if bucket(ns) == BUCKETS - 1 {
        max_ns as int
    } else {
        bucket_upper(bucket(ns))
    }
}

proof fn lemma_first_buckets_are_a_prefix(samples: Seq<u64>, n: int, k: int)
    requires
        forall|i: int, j: int| 0 <= i <= j < samples.len() ==> samples[i] <= samples[j],
        0 <= k < samples.len(),
    ensures
        count_in_first(samples, n) <= samples.len(),
        bucket(samples[k]) < n <==> k < count_in_first(samples, n),
    decreases samples.len(),
{
    let rest = samples.drop_last();
    let last = samples.last();
    if k < rest.len() {
        lemma_first_buckets_are_a_prefix(rest, n, k);
        assert(samples[k] <= samples[samples.len() - 1]);
    }
    if rest.len() > 0 {
        lemma_first_buckets_are_a_prefix(rest, n, rest.len() - 1);
        assert(samples[rest.len() - 1] <= samples[samples.len() - 1]);
    } else {
        assert(count_in_first(rest, n) == 0);
    }
}

/// A quantile is the sample of its rank among the sorted samples, rounded up to the bound of its
/// bucket, or the maximum where that is smaller. The order of recording does not matter.
pub proof fn quantile_is_the_rounded_sample(samples: Seq<u64>, percentile: u64)
    requires
        0 < samples.len() <= u64::MAX,
        0 < percentile <= 100,
        forall|i: int, j: int| 0 <= i <= j < samples.len() ==> samples[i] <= samples[j],
    ensures
        ({
            let h = histogram_of(samples);
            let rank = quantile_rank(h.count, percentile);
            let up = rounded_up(samples[rank - 1], h.max_ns);
            quantile_of(h, percentile) == if up < h.max_ns {
                up
            } else {
                h.max_ns as int
            }
        }),
{
    let h = histogram_of(samples);
    let rank = quantile_rank(h.count, percentile);
    let i = rank_bucket(h.bins, rank, 0);
    quantile_bounds_the_percentile(samples, percentile);
    totals_and_extrema_are_exact(samples);
    lemma_first_buckets_are_a_prefix(samples, i, rank - 1);
    lemma_first_buckets_are_a_prefix(samples, i + 1, rank - 1);
}

/// One more sample: the bucket whose range holds it counts one more, and no other bucket changes;
/// the count grows by one and the total by the sample, up to `u64::MAX`; the extrema take it in.
pub proof fn recording_adds_one_sample(h: HistogramView, ns: u64, i: int)
    requires
        h.bins.len() == BUCKETS,
        0 <= i < BUCKETS,
    ensures
        ({
            let after = recorded(h, ns);
            &&& after.bins.len() == 141
            &&& after.bins[i] == if in_bucket(ns, i) && h.bins[i] < u64::MAX {
                h.bins[i] + 1
            } else {
                h.bins[i] as int
            }
            &&& after.count == if h.count < u64::MAX {
                h.count + 1
            } else {
                u64::MAX as int
            }
            &&& after.total_ns == if h.total_ns + ns <= u64::MAX {
                h.total_ns + ns
            } else {
                u64::MAX as int
            }
            &&& after.min_ns <= ns && after.min_ns <= h.min_ns && (after.min_ns == ns
                || after.min_ns == h.min_ns)
            &&& after.max_ns >= ns && after.max_ns >= h.max_ns && (after.max_ns == ns
                || after.max_ns == h.max_ns)
        }),
{
    buckets_partition(ns, i);
}

/// An empty histogram holds nothing, and has extrema that every sample replaces.
pub proof fn empty_histograms_hold_nothing(i: int)
    requires
        0 <= i < 141,
    ensures
        empty_histogram().bins.len() == 141,
        empty_histogram().bins[i] == 0,
        empty_histogram().count == 0,
        empty_histogram().total_ns == 0,
        empty_histogram().min_ns == 0xffff_ffff_ffff_ffff,
        empty_histogram().max_ns == 0,
{
}

/// Buckets are 25us wide up to 1ms, 100us up to 5ms and 250us up to 20ms; what is longer overflows.
pub proof fn bucket_widths_are_as_documented(ns: u64)
    ensures
        0 <= bucket(ns) <= 140,
        ns <= 1_000_000 ==> bucket(ns) < 40 && bucket_upper(bucket(ns)) - 25_000 <= ns
            <= bucket_upper(bucket(ns)) && bucket_upper(bucket(ns)) % 25_000 == 0,
        0 < ns <= 1_000_000 ==> bucket_upper(bucket(ns)) - 25_000 < ns,
        1_000_000 < ns <= 5_000_000 ==> 40 <= bucket(ns) < 80 && bucket_upper(bucket(ns)) - 100_000
            < ns <= bucket_upper(bucket(ns)) && bucket_upper(bucket(ns)) % 100_000 == 0,
        5_000_000 < ns <= 20_000_000 ==> 80 <= bucket(ns) < 140 && bucket_upper(bucket(ns))
            - 250_000 < ns <= bucket_upper(bucket(ns)) && bucket_upper(bucket(ns)) % 250_000 == 0,
        ns > 20_000_000 <==> bucket(ns) == 140,
{
}

/// A duration beyond `u64::MAX` nanoseconds counts as that; any other counts as it is.
pub proof fn long_durations_are_clamped(nanos: u128)
    ensures
        nanos <= 0xffff_ffff_ffff_ffff ==> clamp_nanos(nanos) == nanos,
        nanos > 0xffff_ffff_ffff_ffff ==> clamp_nanos(nanos) == 0xffff_ffff_ffff_ffff,
{
}

/// The rank of a percentile is the smallest number of samples that makes up that share.
pub proof fn ranks_are_rounded_up(count: u64, percentile: u64)
    requires
        percentile <= 100,
    ensures
        100 * (quantile_rank(count, percentile) - 1) < count * percentile,
        count * percentile <= 100 * quantile_rank(count, percentile),
        quantile_rank(count, percentile) <= count,
{
    lemma_rank_range(count, percentile);
    assert(count * percentile <= count * 100) by (nonlinear_arith)
        requires
            percentile <= 100,
            0 <= count,
    ;
}

/// A summary holds the number, sum, smallest and largest of the samples, and five quantiles: at
/// least the share that each is named after is at most the quantile.
pub proof fn summaries_describe_the_samples(samples: Seq<u64>)
    requires
        0 < samples.len() <= u64::MAX,
    ensures
        ({
            let h = histogram_of(samples);
            let summary = summary_of(h);
            &&& summary.count == samples.len()
            &&& summary.total_ns == if sum_of(samples) > u64::MAX {
                u64::MAX as nat
            } else {
                sum_of(samples)
            }
            &&& samples.contains(summary.min_ns) && samples.contains(summary.max_ns)
            &&& forall|k: int|
                0 <= k < samples.len() ==> summary.min_ns <= #[trigger] samples[k]
                    <= summary.max_ns
            &&& 100 * count_at_most(samples, summary.p01_ns as int) >= samples.len() * 1
            &&& 100 * count_at_most(samples, summary.p05_ns as int) >= samples.len() * 5
            &&& 100 * count_at_most(samples, summary.p50_ns as int) >= samples.len() * 50
            &&& 100 * count_at_most(samples, summary.p95_ns as int) >= samples.len() * 95
            &&& 100 * count_at_most(samples, summary.p99_ns as int) >= samples.len() * 99
            &&& summary.p01_ns == quantile_of(h, 1)
            &&& summary.p05_ns == quantile_of(h, 5)
            &&& summary.p50_ns == quantile_of(h, 50)
            &&& summary.p95_ns == quantile_of(h, 95)
            &&& summary.p99_ns == quantile_of(h, 99)
        }),
{
    totals_and_extrema_are_exact(samples);
    let count = histogram_of(samples).count;
    quantile_bounds_the_percentile(samples, 1);
    ranks_are_rounded_up(count, 1);
    quantile_bounds_the_percentile(samples, 5);
    ranks_are_rounded_up(count, 5);
    quantile_bounds_the_percentile(samples, 50);
    ranks_are_rounded_up(count, 50);
    quantile_bounds_the_percentile(samples, 95);
    ranks_are_rounded_up(count, 95);
    quantile_bounds_the_percentile(samples, 99);
    ranks_are_rounded_up(count, 99);
}

} // verus!
