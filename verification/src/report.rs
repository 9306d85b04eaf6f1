//! Interval aggregation into a final test report.
//!
//! `TestResult::from_intervals` reduces an ordered sequence of
//! `IntervalResult`s: counters are summed (saturating at `u64::MAX`),
//! per-interval bitrates are derived as `bytes * 8 / interval_seconds`
//! (computed in microseconds), and the mean and median are taken over the
//! per-interval bitrate and jitter series. An empty input gives the
//! all-zero report.

use vstd::prelude::*;
use vstd::relations::sorted_by;
use vstd::relations::total_ordering;
use vstd::seq_lib::lemma_sorted_unique;

use crate::arith::sat64;
use crate::flow::IntervalResult;

verus! {

broadcast use vstd::seq_lib::group_to_multiset_ensures;

/// The ordering the median sorts by.
pub open spec fn u64_leq() -> spec_fn(u64, u64) -> bool {
    |a: u64, b: u64| a <= b
}

proof fn lemma_u64_leq_total()
    ensures
        total_ordering(u64_leq()),
{
    assert forall|x: u64| #[trigger] u64_leq()(x, x) by {}
}

/// The sequence sorted ascending.
pub open spec fn spec_sorted(s: Seq<u64>) -> Seq<u64> {
    s.sort_by(u64_leq())
}

/// The sum of a sequence, as an unbounded integer.
pub open spec fn spec_sum(s: Seq<u64>) -> int
    decreases s.len(),
{
    if s.len() == 0 {
        0
    } else {
        spec_sum(s.drop_last()) + s.last()
    }
}

/// The arithmetic mean, rounded down; zero for an empty sequence.
pub open spec fn spec_mean(s: Seq<u64>) -> u64 {
    if s.len() == 0 {
        0
    } else {
        (spec_sum(s) / s.len() as int) as u64
    }
}

/// The median: the middle of the sorted sequence, or the rounded-down
/// average of the two central values for an even length; zero for an
/// empty sequence.
pub open spec fn spec_median(s: Seq<u64>) -> u64 {
    if s.len() == 0 {
        0
    } else {
        let t = spec_sorted(s);
        if s.len() % 2 == 1 {
            t[s.len() as int / 2]
        } else {
            ((t[s.len() as int / 2 - 1] + t[s.len() as int / 2]) / 2) as u64
        }
    }
}

/// One interval's bitrate in bits per second: `bytes * 8` over the
/// interval's elapsed time.
pub open spec fn spec_interval_bitrate(iv: IntervalResult) -> u64
    recommends
        iv.time_us > 0,
{
    sat64(iv.bytes * 8 * 1_000_000 / (iv.time_us as int))
}

/// The per-interval bitrate series.
pub open spec fn spec_bitrates(ivs: Seq<IntervalResult>) -> Seq<u64> {
    ivs.map_values(|iv: IntervalResult| spec_interval_bitrate(iv))
}

/// The per-interval jitter series.
pub open spec fn spec_jitters(ivs: Seq<IntervalResult>) -> Seq<u64> {
    ivs.map_values(|iv: IntervalResult| iv.jitter_us)
}

/// The per-interval received counts.
pub open spec fn spec_receiveds(ivs: Seq<IntervalResult>) -> Seq<u64> {
    ivs.map_values(|iv: IntervalResult| iv.received)
}

/// The per-interval lost counts.
pub open spec fn spec_losts(ivs: Seq<IntervalResult>) -> Seq<u64> {
    ivs.map_values(|iv: IntervalResult| iv.lost)
}

/// The per-interval byte counts.
pub open spec fn spec_byte_counts(ivs: Seq<IntervalResult>) -> Seq<u64> {
    ivs.map_values(|iv: IntervalResult| iv.bytes)
}

/// The per-interval out-of-order counts.
pub open spec fn spec_ooo_counts(ivs: Seq<IntervalResult>) -> Seq<u64> {
    ivs.map_values(|iv: IntervalResult| iv.out_of_order)
}

/// The per-interval elapsed times in microseconds.
pub open spec fn spec_times(ivs: Seq<IntervalResult>) -> Seq<u64> {
    ivs.map_values(|iv: IntervalResult| iv.time_us)
}

proof fn lemma_sum_push(s: Seq<u64>, x: u64)
    ensures
        spec_sum(s.push(x)) == spec_sum(s) + x,
{
    assert(s.push(x).drop_last() =~= s);
}

proof fn lemma_sum_bounds(s: Seq<u64>)
    ensures
        0 <= spec_sum(s) <= s.len() * u64::MAX,
    decreases s.len(),
{
    if s.len() > 0 {
        lemma_sum_bounds(s.drop_last());
    }
}

proof fn lemma_insert_sorted(s: Seq<u64>, j: int, x: u64)
    requires
        sorted_by(s, u64_leq()),
        0 <= j <= s.len(),
        forall|k: int| 0 <= k < j ==> s[k] <= x,
        j < s.len() ==> x < s[j],
    ensures
        sorted_by(s.insert(j, x), u64_leq()),
{
    let t = s.insert(j, x);
    assert forall|p: int, q: int| 0 <= p < q < t.len() implies #[trigger] u64_leq()(
        t[p],
        t[q],
    ) by {
        if p < j && q < j {
            assert(u64_leq()(s[p], s[q]));
        } else if p < j && q == j {
            assert(t[p] == s[p] && t[q] == x);
        } else if p < j && q > j {
            assert(t[p] == s[p] && t[q] == s[q - 1]);
            if q - 1 > p {
                assert(u64_leq()(s[p], s[q - 1]));
            }
        } else if p == j {
            assert(t[p] == x && t[q] == s[q - 1]);
            if q - 1 > j {
                assert(u64_leq()(s[j], s[q - 1]));
            }
        } else {
            assert(t[p] == s[p - 1] && t[q] == s[q - 1]);
            assert(u64_leq()(s[p - 1], s[q - 1]));
        }
    }
}

proof fn lemma_insert_multiset(s: Seq<u64>, j: int, x: u64)
    requires
        0 <= j <= s.len(),
    ensures
        s.insert(j, x).to_multiset() =~= s.to_multiset().insert(x),
{
    let t = s.insert(j, x);
    assert(t.remove(j) =~= s);
    assert(t[j] == x);
    assert(t.remove(j).to_multiset() =~= t.to_multiset().remove(x));
    assert(t.contains(x));
    assert(t.to_multiset().count(x) > 0);
}

/// A copy of `v`, sorted ascending.
fn sorted_copy(v: &Vec<u64>) -> (out: Vec<u64>)
    ensures
        out@ == spec_sorted(v@),
{
    let mut out: Vec<u64> = Vec::new();
    let mut i: usize = 0;
    while i < v.len()
        invariant
            i <= v@.len(),
            sorted_by(out@, u64_leq()),
            out@.to_multiset() == v@.take(i as int).to_multiset(),
        decreases v@.len() - i,
    {
        let x = v[i];
        let mut j: usize = 0;
        while j < out.len() && out[j] <= x
            invariant
                j <= out@.len(),
                forall|k: int| 0 <= k < j ==> out@[k] <= x,
            decreases out@.len() - j,
        {
            j += 1;
        }
        let ghost prev = out@;
        proof {
            lemma_insert_sorted(prev, j as int, x);
            lemma_insert_multiset(prev, j as int, x);
            assert(v@.take(i as int + 1) =~= v@.take(i as int).push(x));
        }
        out.insert(j, x);
        i += 1;
    }
    proof {
        assert(v@.take(v@.len() as int) =~= v@);
        lemma_u64_leq_total();
        v@.lemma_sort_by_ensures(u64_leq());
        lemma_sorted_unique(out@, spec_sorted(v@), u64_leq());
        assert(out@ =~= spec_sorted(v@));
    }
    out
}

/// The arithmetic mean of `v`, rounded down; zero for an empty vector.
pub fn mean(v: &Vec<u64>) -> (m: u64)
    ensures
        m == spec_mean(v@),
{
    if v.len() == 0 {
        return 0;
    }
    let mut sum: u128 = 0;
    let mut i: usize = 0;
    while i < v.len()
        invariant
            i <= v@.len(),
            sum == spec_sum(v@.take(i as int)),
            sum <= (i as int) * u64::MAX,
        decreases v@.len() - i,
    {
        proof {
            lemma_sum_push(v@.take(i as int), v@[i as int]);
            assert(v@.take(i as int + 1) =~= v@.take(i as int).push(v@[i as int]));
        }
        sum = sum + (v[i] as u128);
        i += 1;
    }
    proof {
        assert(v@.take(v@.len() as int) =~= v@);
        assert(spec_sum(v@) / (v@.len() as int) <= u64::MAX) by (nonlinear_arith)
            requires
                0 <= spec_sum(v@) <= v@.len() * u64::MAX,
                v@.len() >= 1,
        ;
    }
    (sum / (v.len() as u128)) as u64
}

/// The median of `v`: the middle of the sorted order, or the rounded-down
/// average of the two central values for an even count; zero for an empty
/// vector.
pub fn median(v: &Vec<u64>) -> (m: u64)
    ensures
        m == spec_median(v@),
{
    if v.len() == 0 {
        return 0;
    }
    let sorted = sorted_copy(v);
    proof {
        lemma_u64_leq_total();
        v@.lemma_sort_by_ensures(u64_leq());
        assert(sorted@.to_multiset().len() == v@.to_multiset().len());
        assert(sorted@.len() == v@.len());
    }
    let n = v.len();
    let mid = n / 2;
    if n % 2 == 1 {
        sorted[mid]
    } else {
        (((sorted[mid - 1] as u128) + (sorted[mid] as u128)) / 2) as u64
    }
}

/// Final aggregated statistics of a whole test run.
#[derive(Debug, Clone, Copy, PartialEq, Eq, Structural)]
pub struct TestResult {
    /// Total number of packets received across all intervals.
    pub total_packets: u64,
    /// Total number of packets lost across all intervals.
    pub total_lost: u64,
    /// Total number of bytes received across all intervals.
    pub total_bytes: u64,
    /// Total duration of the test in microseconds.
    pub total_time_us: u64,
    /// Total number of out-of-order packets across all intervals.
    pub total_out_of_order: u64,
    /// Mean bitrate over all intervals (bits per second).
    pub mean_bitrate: u64,
    /// Median bitrate over all intervals (bits per second).
    pub median_bitrate: u64,
    /// Mean jitter over all intervals (microseconds).
    pub mean_jitter_us: u64,
    /// Median jitter over all intervals (microseconds).
    pub median_jitter_us: u64,
}

impl TestResult {
    /// Reduces a series of interval records to one summary: totals are
    /// saturating sums, bitrate and jitter get their mean and median over
    /// the per-interval series. An empty series gives the all-zero
    /// summary, not an error.
    pub fn from_intervals(intervals: &Vec<IntervalResult>) -> (t: TestResult)
        requires
            forall|k: int| 0 <= k < intervals@.len() ==> #[trigger] intervals@[k].time_us > 0,
        ensures
            t.total_packets == sat64(spec_sum(spec_receiveds(intervals@))),
            t.total_lost == sat64(spec_sum(spec_losts(intervals@))),
            t.total_bytes == sat64(spec_sum(spec_byte_counts(intervals@))),
            t.total_time_us == sat64(spec_sum(spec_times(intervals@))),
            t.total_out_of_order == sat64(spec_sum(spec_ooo_counts(intervals@))),
            t.mean_bitrate == spec_mean(spec_bitrates(intervals@)),
            t.median_bitrate == spec_median(spec_bitrates(intervals@)),
            t.mean_jitter_us == spec_mean(spec_jitters(intervals@)),
            t.median_jitter_us == spec_median(spec_jitters(intervals@)),
    {
        let n = intervals.len();
        let mut total_packets: u64 = 0;
        let mut total_lost: u64 = 0;
        let mut total_bytes: u64 = 0;
        let mut total_time_us: u64 = 0;
        let mut total_out_of_order: u64 = 0;
        let mut bitrates: Vec<u64> = Vec::new();
        let mut jitters: Vec<u64> = Vec::new();
        let mut i: usize = 0;
        while i < n
            invariant
                n == intervals@.len(),
                i <= n,
                forall|k: int| 0 <= k < intervals@.len() ==> #[trigger] intervals@[k].time_us > 0,
                total_packets == sat64(spec_sum(spec_receiveds(intervals@.take(i as int)))),
                total_lost == sat64(spec_sum(spec_losts(intervals@.take(i as int)))),
                total_bytes == sat64(spec_sum(spec_byte_counts(intervals@.take(i as int)))),
                total_time_us == sat64(spec_sum(spec_times(intervals@.take(i as int)))),
                total_out_of_order == sat64(
                    spec_sum(spec_ooo_counts(intervals@.take(i as int))),
                ),
                bitrates@ == spec_bitrates(intervals@.take(i as int)),
                jitters@ == spec_jitters(intervals@.take(i as int)),
            decreases n - i,
        {
            let iv = intervals[i];
            proof {
                let pre = intervals@.take(i as int);
                let post = intervals@.take(i as int + 1);
                assert(post =~= pre.push(intervals@[i as int]));
                assert(spec_receiveds(post) =~= spec_receiveds(pre).push(iv.received));
                assert(spec_losts(post) =~= spec_losts(pre).push(iv.lost));
                assert(spec_byte_counts(post) =~= spec_byte_counts(pre).push(iv.bytes));
                assert(spec_times(post) =~= spec_times(pre).push(iv.time_us));
                assert(spec_ooo_counts(post) =~= spec_ooo_counts(pre).push(iv.out_of_order));
                assert(spec_bitrates(post) =~= spec_bitrates(pre).push(spec_interval_bitrate(iv)));
                assert(spec_jitters(post) =~= spec_jitters(pre).push(iv.jitter_us));
                lemma_sum_push(spec_receiveds(pre), iv.received);
                lemma_sum_push(spec_losts(pre), iv.lost);
                lemma_sum_push(spec_byte_counts(pre), iv.bytes);
                lemma_sum_push(spec_times(pre), iv.time_us);
                lemma_sum_push(spec_ooo_counts(pre), iv.out_of_order);
                lemma_sum_bounds(spec_receiveds(pre));
                lemma_sum_bounds(spec_losts(pre));
                lemma_sum_bounds(spec_byte_counts(pre));
                lemma_sum_bounds(spec_times(pre));
                lemma_sum_bounds(spec_ooo_counts(pre));
            }
            total_packets = total_packets.saturating_add(iv.received);
            total_lost = total_lost.saturating_add(iv.lost);
            total_bytes = total_bytes.saturating_add(iv.bytes);
            total_time_us = total_time_us.saturating_add(iv.time_us);
            total_out_of_order = total_out_of_order.saturating_add(iv.out_of_order);
            let rate_wide: u128 = (iv.bytes as u128) * 8 * 1_000_000 / (iv.time_us as u128);
            let rate: u64 = if rate_wide > u64::MAX as u128 {
                u64::MAX
            } else {
                rate_wide as u64
            };
            bitrates.push(rate);
            jitters.push(iv.jitter_us);
            i += 1;
        }
        proof {
            assert(intervals@.take(n as int) =~= intervals@);
        }
        let mean_bitrate = mean(&bitrates);
        let median_bitrate = median(&bitrates);
        let mean_jitter_us = mean(&jitters);
        let median_jitter_us = median(&jitters);
        TestResult {
            total_packets,
            total_lost,
            total_bytes,
            total_time_us,
            total_out_of_order,
            mean_bitrate,
            median_bitrate,
            mean_jitter_us,
            median_jitter_us,
        }
    }
}

/// Aggregating a single interval is the identity on its own bitrate and
/// jitter: mean and median both equal the interval's own value.
pub proof fn lemma_single_interval_aggregate(iv: IntervalResult)
    requires
        iv.time_us > 0,
    ensures
        spec_mean(spec_bitrates(seq![iv])) == spec_interval_bitrate(iv),
        spec_median(spec_bitrates(seq![iv])) == spec_interval_bitrate(iv),
        spec_mean(spec_jitters(seq![iv])) == iv.jitter_us,
        spec_median(spec_jitters(seq![iv])) == iv.jitter_us,
{
    lemma_single_median(spec_bitrates(seq![iv]));
    lemma_single_median(spec_jitters(seq![iv]));
    assert(spec_bitrates(seq![iv]) =~= seq![spec_interval_bitrate(iv)]);
    assert(spec_jitters(seq![iv]) =~= seq![iv.jitter_us]);
    assert(spec_sum(seq![spec_interval_bitrate(iv)].drop_last()) == 0);
    assert(spec_sum(seq![iv.jitter_us].drop_last()) == 0);
}

proof fn lemma_single_median(s: Seq<u64>)
    requires
        s.len() == 1,
    ensures
        spec_median(s) == s[0],
{
    lemma_u64_leq_total();
    s.lemma_sort_by_ensures(u64_leq());
    lemma_sorted_unique(spec_sorted(s), s, u64_leq());
    assert(spec_sorted(s) =~= s);
}

} // verus!
