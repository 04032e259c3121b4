//! Comparative reporter: pairs the per-operation statistics of two full runs
//! (mode A against mode B), and computes the absolute and percentage
//! difference of every figure. Percentages are integer hundredths of a
//! percent, truncated toward zero; rendering the table and the durable record
//! is left to the program around the library.

use vstd::prelude::*;

verus! {

use crate::error::MyError;
use crate::metrics::{
    stats_of,
    throughput_of,
    window_latencies,
    LatencyStats,
    Metrics,
};

/// Which figure a comparison row speaks of.
#[derive(Clone, Copy, Debug, PartialEq, Eq, Structural)]
pub enum MetricKind {
    Mean,
    Median,
    P95,
    P99,
    Min,
    Max,
    Throughput,
    Errors,
}

/// Division truncated toward zero, as the executable signed division does.
pub open spec fn tdiv(p: int, q: int) -> int
    recommends
        q > 0,
{
    if p >= 0 {
        p / q
    } else {
        -((-p) / q)
    }
}

/// The difference of `a` against base `b`, as hundredths of a percent of `b`.
pub open spec fn percent_diff_spec(a: int, b: int) -> int
    recommends
        b > 0,
{
    tdiv((a - b) * 10000, b)
}

/// One row of the comparative report: a figure's value under each mode, the
/// difference `A - B`, and that difference in hundredths of a percent of the
/// mode-B value — absent when the base is zero, where no finite percentage
/// exists.
#[derive(Clone, Copy, Debug, PartialEq, Eq, Structural)]
pub struct ComparisonRow {
    pub metric: MetricKind,
    pub mode_a: u64,
    pub mode_b: u64,
    pub difference: i128,
    pub percent_hundredths: Option<i128>,
}

/// What a comparison row holds for one figure.
pub open spec fn comparison_row(metric: MetricKind, a: u64, b: u64) -> ComparisonRow {
    ComparisonRow {
        metric,
        mode_a: a,
        mode_b: b,
        difference: (a - b) as i128,
        percent_hundredths: if b > 0 {
            Some(percent_diff_spec(a as int, b as int) as i128)
        } else {
            None
        },
    }
}

/// Compares one figure of the two modes.
pub fn compare_metric(metric: MetricKind, mode_a: u64, mode_b: u64) -> (row: ComparisonRow)
    ensures
        row == comparison_row(metric, mode_a, mode_b),
{
    let difference = mode_a as i128 - mode_b as i128;
    let percent_hundredths = if mode_b > 0 {
        Some((difference * 10000) / (mode_b as i128))
    } else {
        None
    };
    ComparisonRow { metric, mode_a, mode_b, difference, percent_hundredths }
}

/// The rows of one operation's comparison: every latency figure, the
/// throughput, and the error counts, in the order the report prints them.
pub open spec fn comparison_rows_spec(
    a_stats: LatencyStats,
    a_throughput: u64,
    a_errors: u64,
    b_stats: LatencyStats,
    b_throughput: u64,
    b_errors: u64,
) -> Seq<ComparisonRow> {
    seq![
        comparison_row(MetricKind::Mean, a_stats.avg, b_stats.avg),
        comparison_row(MetricKind::Median, a_stats.median, b_stats.median),
        comparison_row(MetricKind::P95, a_stats.p95, b_stats.p95),
        comparison_row(MetricKind::P99, a_stats.p99, b_stats.p99),
        comparison_row(MetricKind::Min, a_stats.min, b_stats.min),
        comparison_row(MetricKind::Max, a_stats.max, b_stats.max),
        comparison_row(MetricKind::Throughput, a_throughput, b_throughput),
        comparison_row(MetricKind::Errors, a_errors, b_errors),
    ]
}

/// The full comparison of one operation: every latency figure, the
/// throughput, and the error counts, in the order the report prints them.
pub fn compare_operation(
    a_stats: &LatencyStats,
    a_throughput: u64,
    a_errors: u64,
    b_stats: &LatencyStats,
    b_throughput: u64,
    b_errors: u64,
) -> (rows: Vec<ComparisonRow>)
    ensures
        rows@ == comparison_rows_spec(
            *a_stats,
            a_throughput,
            a_errors,
            *b_stats,
            b_throughput,
            b_errors,
        ),
{
    let mut rows: Vec<ComparisonRow> = Vec::new();
    rows.push(compare_metric(MetricKind::Mean, a_stats.avg, b_stats.avg));
    rows.push(compare_metric(MetricKind::Median, a_stats.median, b_stats.median));
    rows.push(compare_metric(MetricKind::P95, a_stats.p95, b_stats.p95));
    rows.push(compare_metric(MetricKind::P99, a_stats.p99, b_stats.p99));
    rows.push(compare_metric(MetricKind::Min, a_stats.min, b_stats.min));
    rows.push(compare_metric(MetricKind::Max, a_stats.max, b_stats.max));
    rows.push(compare_metric(MetricKind::Throughput, a_throughput, b_throughput));
    rows.push(compare_metric(MetricKind::Errors, a_errors, b_errors));
    proof {
        assert(rows@ =~= comparison_rows_spec(
            *a_stats,
            a_throughput,
            a_errors,
            *b_stats,
            b_throughput,
            b_errors,
        ));
    }
    rows
}

/// Pairs one operation's windowed results of the two modes. Both windows must
/// hold data: a comparison against a window without samples fails loudly
/// rather than yield a zeroed, misleading report.
pub fn compare_operation_results(
    a_result: Option<(LatencyStats, u64)>,
    a_errors: u64,
    b_result: Option<(LatencyStats, u64)>,
    b_errors: u64,
) -> (outcome: Result<Vec<ComparisonRow>, MyError>)
    ensures
        outcome is Ok <==> a_result is Some && b_result is Some,
        outcome matches Ok(rows) ==> {
            let a = a_result->Some_0;
            let b = b_result->Some_0;
            rows@ == comparison_rows_spec(a.0, a.1, a_errors, b.0, b.1, b_errors)
        },
        outcome matches Err(e) ==> e == MyError::NoDataInWindow,
{
    match (a_result, b_result) {
        (Some((a_stats, a_throughput)), Some((b_stats, b_throughput))) => Ok(
            compare_operation(&a_stats, a_throughput, a_errors, &b_stats, b_throughput, b_errors),
        ),
        _ => Err(MyError::NoDataInWindow),
    }
}

/// The metrics of two full benchmark runs, one `Metrics` per operation kind
/// and mode, paired index by index for reporting.
pub struct BenchmarkResult {
    pub mode_a: Vec<Metrics>,
    pub mode_b: Vec<Metrics>,
}

/// What one paired operation's comparison yields over the given window:
/// the full row set where both windows hold data, the loud failure where
/// either does not.
pub open spec fn op_comparison_spec(a: Metrics, b: Metrics, window_start_ms: int, window_end_ms: int) -> Result<
    Seq<ComparisonRow>,
    MyError,
>
    recommends
        window_start_ms < window_end_ms,
{
    let wa = window_latencies(a.samples@, window_start_ms, window_end_ms);
    let wb = window_latencies(b.samples@, window_start_ms, window_end_ms);
    if wa.len() > 0 && wb.len() > 0 {
        Ok(
            comparison_rows_spec(
                stats_of(wa),
                throughput_of(wa.len() as int, window_end_ms - window_start_ms) as u64,
                a.error_count,
                stats_of(wb),
                throughput_of(wb.len() as int, window_end_ms - window_start_ms) as u64,
                b.error_count,
            ),
        )
    } else {
        Err(MyError::NoDataInWindow)
    }
}

/// The whole comparative report of two runs: one comparison outcome per
/// paired operation, over the same statistics window for all of them.
pub fn compare_all(results: &BenchmarkResult, window_start_ms: u64, window_end_ms: u64) -> (report:
    Vec<Result<Vec<ComparisonRow>, MyError>>)
    requires
        window_start_ms < window_end_ms,
        results.mode_a@.len() == results.mode_b@.len(),
        forall|i: int|
            0 <= i < results.mode_a@.len() ==> (#[trigger] results.mode_a@[i]).samples@.len()
                < 0x1_0000_0000,
        forall|i: int|
            0 <= i < results.mode_b@.len() ==> (#[trigger] results.mode_b@[i]).samples@.len()
                < 0x1_0000_0000,
    ensures
        report@.len() == results.mode_a@.len(),
        forall|i: int|
            0 <= i < report@.len() ==> {
                let expected = op_comparison_spec(
                    results.mode_a@[i],
                    results.mode_b@[i],
                    window_start_ms as int,
                    window_end_ms as int,
                );
                &&& ((#[trigger] report@[i]) is Ok <==> expected is Ok)
                &&& (report@[i] matches Ok(rows) ==> rows@ == expected->Ok_0)
                &&& (report@[i] matches Err(e) ==> e == expected->Err_0)
            },
{
    let mut report: Vec<Result<Vec<ComparisonRow>, MyError>> = Vec::new();
    let mut i: usize = 0;
    while i < results.mode_a.len()
        invariant
            0 <= i <= results.mode_a@.len(),
            results.mode_a@.len() == results.mode_b@.len(),
            window_start_ms < window_end_ms,
            forall|k: int|
                0 <= k < results.mode_a@.len() ==> (#[trigger] results.mode_a@[k]).samples@.len()
                    < 0x1_0000_0000,
            forall|k: int|
                0 <= k < results.mode_b@.len() ==> (#[trigger] results.mode_b@[k]).samples@.len()
                    < 0x1_0000_0000,
            report@.len() == i,
            forall|k: int|
                0 <= k < i ==> {
                    let expected = op_comparison_spec(
                        results.mode_a@[k],
                        results.mode_b@[k],
                        window_start_ms as int,
                        window_end_ms as int,
                    );
                    &&& ((#[trigger] report@[k]) is Ok <==> expected is Ok)
                    &&& (report@[k] matches Ok(rows) ==> rows@ == expected->Ok_0)
                    &&& (report@[k] matches Err(e) ==> e == expected->Err_0)
                },
        decreases results.mode_a@.len() - i,
    {
        let a = &results.mode_a[i];
        let b = &results.mode_b[i];
        let a_result = a.calculate_stats(window_start_ms, window_end_ms);
        let b_result = b.calculate_stats(window_start_ms, window_end_ms);
        let outcome = compare_operation_results(a_result, a.error_count, b_result, b.error_count);
        report.push(outcome);
        i = i + 1;
    }
    report
}

} // verus!
