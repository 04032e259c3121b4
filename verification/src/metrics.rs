//! Metrics aggregator and windowed statistics engine: per-operation latency
//! samples with their timestamps, an error counter, and the statistics of the
//! samples whose timestamp falls in a given time window. Latencies are
//! integer microseconds; timestamps are milliseconds since the run started;
//! throughput is reported in thousandths of an operation per second, so that
//! integer arithmetic loses no precision.

use vstd::prelude::*;

verus! {

use crate::ops::OperationKind;
use crate::stats::{
    lemma_rank_index_in_range,
    lemma_sort_seq_ensures,
    lemma_sum_of_bound,
    percentile,
    rank_index,
    sort_latencies,
    sort_seq,
    sum_of,
};

/// One successful operation: when it finished (milliseconds since the run's
/// start) and how long it took (microseconds).
#[derive(Clone, Copy, Debug, PartialEq, Eq, Structural)]
pub struct Sample {
    pub at_ms: u64,
    pub latency_us: u64,
}

/// Whether a sample's timestamp falls inside the inclusive window.
pub open spec fn in_window(s: Sample, window_start_ms: int, window_end_ms: int) -> bool {
    window_start_ms <= s.at_ms <= window_end_ms
}

/// The latencies of the samples inside the window, in insertion order.
pub open spec fn window_latencies(
    samples: Seq<Sample>,
    window_start_ms: int,
    window_end_ms: int,
) -> Seq<u64>
    decreases samples.len(),
{
    if samples.len() == 0 {
        Seq::empty()
    } else {
        let prefix = window_latencies(samples.drop_last(), window_start_ms, window_end_ms);
        if in_window(samples.last(), window_start_ms, window_end_ms) {
            prefix.push(samples.last().latency_us)
        } else {
            prefix
        }
    }
}

/// The default statistics window of a trial: its middle half, from a quarter
/// to three quarters of the configured duration, discarding ramp-up and
/// ramp-down artifacts.
pub fn default_window(duration_ms: u64) -> (window: (u64, u64))
    ensures
        window.0 == duration_ms as int / 4,
        window.1 == duration_ms as int * 3 / 4,
{
    let end = ((duration_ms as u128 * 3) / 4) as u64;
    (duration_ms / 4, end)
}

/// The latency figures of one window, all in microseconds: mean and median,
/// the nearest-rank 95th and 99th percentiles, and the extremes.
#[derive(Clone, Copy, Debug, PartialEq, Eq, Structural)]
pub struct LatencyStats {
    pub avg: u64,
    pub median: u64,
    pub p95: u64,
    pub p99: u64,
    pub min: u64,
    pub max: u64,
}

/// The median of an ascending sequence: the middle element, or the integer
/// mean of the two middle elements when the length is even.
pub open spec fn median_of(sorted: Seq<u64>) -> int
    recommends
        sorted.len() > 0,
{
    let n = sorted.len() as int;
    if n % 2 == 1 {
        sorted[n / 2] as int
    } else {
        (sorted[n / 2 - 1] + sorted[n / 2]) / 2
    }
}

/// What the statistics of a non-empty window of latencies are: every figure
/// is read off the ascending rearrangement, except the mean, which is the
/// integer mean of the (order-independent) sum.
pub open spec fn stats_of(window: Seq<u64>) -> LatencyStats
    recommends
        window.len() > 0,
{
    let sorted = sort_seq(window);
    let n = window.len() as int;
    LatencyStats {
        avg: (sum_of(window) / n) as u64,
        median: median_of(sorted) as u64,
        p95: sorted[rank_index(95, n)],
        p99: sorted[rank_index(99, n)],
        min: sorted[0],
        max: sorted[n - 1],
    }
}

/// The throughput of a window holding `count` samples, in thousandths of an
/// operation per second: the count per elapsed second, scaled by a thousand.
pub open spec fn throughput_of(count: int, window_ms: int) -> int
    recommends
        window_ms > 0,
{
    count * 1_000_000 / window_ms
}

/// All measurements of one operation across one trial: the latency samples of
/// the successful iterations, in insertion order and never removed, and a
/// counter of the failed ones. Owned by one trial; the program serializes
/// concurrent appends.
#[derive(Debug)]
pub struct Metrics {
    pub operation: OperationKind,
    pub total_ops: u64,
    pub error_count: u64,
    pub samples: Vec<Sample>,
}

impl Metrics {
    /// The success counter counts exactly the recorded samples.
    pub open spec fn wf(self) -> bool {
        self.total_ops == self.samples@.len()
    }

    /// A fresh, empty aggregator for one operation.
    pub fn new(operation: OperationKind) -> (m: Metrics)
        ensures
            m.operation == operation,
            m.total_ops == 0,
            m.error_count == 0,
            m.samples@ =~= Seq::<Sample>::empty(),
            m.wf(),
    {
        Metrics { operation, total_ops: 0, error_count: 0, samples: Vec::new() }
    }

    /// Appends one successful iteration's sample.
    pub fn add_latency(&mut self, at_ms: u64, latency_us: u64)
        requires
            old(self).wf(),
            old(self).samples@.len() < u64::MAX,
        ensures
            final(self).samples@ == old(self).samples@.push(Sample { at_ms, latency_us }),
            final(self).total_ops == old(self).total_ops + 1,
            final(self).error_count == old(self).error_count,
            final(self).operation == old(self).operation,
            final(self).wf(),
    {
        self.samples.push(Sample { at_ms, latency_us });
        self.total_ops = self.total_ops + 1;
    }

    /// Counts one failed iteration; no sample is recorded for it.
    pub fn add_error(&mut self)
        requires
            old(self).error_count < u64::MAX,
        ensures
            final(self).error_count == old(self).error_count + 1,
            final(self).samples@ == old(self).samples@,
            final(self).total_ops == old(self).total_ops,
            final(self).operation == old(self).operation,
    {
        self.error_count = self.error_count + 1;
    }

    /// The statistics over the samples whose timestamp lies in
    /// `[window_start_ms, window_end_ms]`, and the window's throughput in
    /// thousandths of an operation per second. A window that catches no sample yields
    /// nothing — insufficient data, never a zero-valued result.
    pub fn calculate_stats(&self, window_start_ms: u64, window_end_ms: u64) -> (result: Option<
        (LatencyStats, u64),
    >)
        requires
            window_start_ms < window_end_ms,
            self.samples@.len() < 0x1_0000_0000,
        ensures
            result is Some <==> window_latencies(
                self.samples@,
                window_start_ms as int,
                window_end_ms as int,
            ).len() > 0,
            result matches Some((stats, throughput)) ==> {
                let w = window_latencies(self.samples@, window_start_ms as int, window_end_ms as int);
                &&& stats == stats_of(w)
                &&& throughput == throughput_of(
                    w.len() as int,
                    window_end_ms - window_start_ms,
                )
            },
    {
        let mut window: Vec<u64> = Vec::new();
        let mut sum: u128 = 0;
        let mut i: usize = 0;
        while i < self.samples.len()
            invariant
                0 <= i <= self.samples@.len(),
                self.samples@.len() < 0x1_0000_0000,
                window@ == window_latencies(
                    self.samples@.take(i as int),
                    window_start_ms as int,
                    window_end_ms as int,
                ),
                window@.len() <= i,
                sum == sum_of(window@),
            decreases self.samples@.len() - i,
        {
            let s = self.samples[i];
            proof {
                assert(self.samples@.take(i as int + 1).drop_last() =~= self.samples@.take(
                    i as int,
                ));
                assert(self.samples@.take(i as int + 1).last() == self.samples@[i as int]);
                lemma_sum_of_bound(window@);
            }
            if window_start_ms <= s.at_ms && s.at_ms <= window_end_ms {
                let ghost prev = window@;
                window.push(s.latency_us);
                sum = sum + s.latency_us as u128;
                proof {
                    assert(window@.drop_last() =~= prev);
                }
            }
            i = i + 1;
        }
        proof {
            assert(self.samples@.take(self.samples@.len() as int) =~= self.samples@);
        }

        if window.is_empty() {
            return None;
        }

        let n = window.len();
        let ghost sorted_spec = sort_seq(window@);
        proof {
            lemma_sort_seq_ensures(window@);
            lemma_sum_of_bound(window@);
            // The integer mean never exceeds the largest latency value.
            vstd::arithmetic::div_mod::lemma_div_is_ordered(
                sum_of(window@),
                n as int * u64::MAX,
                n as int,
            );
            vstd::arithmetic::div_mod::lemma_div_multiples_vanish(u64::MAX as int, n as int);
            lemma_rank_index_in_range(95, n as int);
            lemma_rank_index_in_range(99, n as int);
        }
        let avg = (sum / n as u128) as u64;
        let sorted = sort_latencies(&window);
        let median = if n % 2 == 1 {
            sorted[n / 2]
        } else {
            ((sorted[n / 2 - 1] as u128 + sorted[n / 2] as u128) / 2) as u64
        };
        let p95 = percentile(&sorted, 95);
        let p99 = percentile(&sorted, 99);
        let min = sorted[0];
        let max = sorted[n - 1];

        let window_ms = window_end_ms - window_start_ms;
        let throughput = ((n as u128 * 1_000_000) / window_ms as u128) as u64;
        proof {
            // The scaled count stays far below 64 bits: fewer than 2^32
            // samples, scaled by a million, divided by at least one.
            vstd::arithmetic::div_mod::lemma_div_is_ordered(
                n as int * 1_000_000,
                0x1_0000_0000int * 1_000_000,
                window_ms as int,
            );
            vstd::arithmetic::div_mod::lemma_div_is_ordered_by_denominator(
                0x1_0000_0000int * 1_000_000,
                1,
                window_ms as int,
            );
        }

        Some((LatencyStats { avg, median, p95, p99, min, max }, throughput))
    }
}

} // verus!
