use bench_autocommit::error::MyError;
use bench_autocommit::metrics::{LatencyStats, Metrics};
use bench_autocommit::ops::OperationKind;
use bench_autocommit::report::{
    compare_all, compare_metric, compare_operation_results, BenchmarkResult, ComparisonRow,
    MetricKind,
};

#[test]
fn throughput_100_against_80_differs_by_20_and_25_percent() {
    let row = compare_metric(MetricKind::Throughput, 100, 80);
    assert_eq!(row.difference, 20);
    // 25.00 percent, in hundredths of a percent.
    assert_eq!(row.percent_hundredths, Some(2500));
}

#[test]
fn negative_differences_keep_their_sign() {
    let row = compare_metric(MetricKind::Mean, 80, 100);
    assert_eq!(row.difference, -20);
    assert_eq!(row.percent_hundredths, Some(-2000));
}

#[test]
fn percentages_truncate_toward_zero() {
    let row = compare_metric(MetricKind::P95, 100, 3);
    // 97 / 3 is 3233.33... percent.
    assert_eq!(row.percent_hundredths, Some(323_333));
    let row = compare_metric(MetricKind::P95, 1, 3);
    assert_eq!(row.percent_hundredths, Some(-6666));
}

#[test]
fn a_zero_base_has_no_finite_percentage() {
    let row = compare_metric(MetricKind::Errors, 5, 0);
    assert_eq!(row.difference, 5);
    assert_eq!(row.percent_hundredths, None);
}

fn stats(avg: u64, median: u64, p95: u64, p99: u64, min: u64, max: u64) -> LatencyStats {
    LatencyStats { avg, median, p95, p99, min, max }
}

#[test]
fn a_full_comparison_pairs_every_figure_in_order() {
    let a = stats(10, 11, 12, 13, 9, 14);
    let b = stats(5, 6, 7, 8, 4, 9);
    let rows = compare_operation_results(Some((a, 100)), 2, Some((b, 80)), 1).unwrap();
    let kinds: Vec<MetricKind> = rows.iter().map(|r| r.metric).collect();
    assert_eq!(
        kinds,
        vec![
            MetricKind::Mean,
            MetricKind::Median,
            MetricKind::P95,
            MetricKind::P99,
            MetricKind::Min,
            MetricKind::Max,
            MetricKind::Throughput,
            MetricKind::Errors,
        ]
    );
    assert_eq!(rows[0].difference, 5);
    assert_eq!(rows[0].percent_hundredths, Some(10_000));
    assert_eq!(
        rows[6],
        ComparisonRow {
            metric: MetricKind::Throughput,
            mode_a: 100,
            mode_b: 80,
            difference: 20,
            percent_hundredths: Some(2500),
        }
    );
    assert_eq!(rows[7].mode_a, 2);
    assert_eq!(rows[7].mode_b, 1);
    assert_eq!(rows[7].difference, 1);
}

#[test]
fn a_missing_window_fails_the_comparison_loudly() {
    let a = stats(10, 11, 12, 13, 9, 14);
    assert_eq!(
        compare_operation_results(Some((a, 100)), 0, None, 0),
        Err(MyError::NoDataInWindow)
    );
    assert_eq!(
        compare_operation_results(None, 0, Some((a, 100)), 0),
        Err(MyError::NoDataInWindow)
    );
}

#[test]
fn a_whole_run_is_compared_operation_by_operation() {
    let mut a_insert = Metrics::new(OperationKind::Insert);
    a_insert.add_latency(500, 20_000);
    let mut b_insert = Metrics::new(OperationKind::Insert);
    b_insert.add_latency(500, 40_000);
    // The second operation has mode-B data only: its comparison must fail.
    let mut a_update = Metrics::new(OperationKind::PointUpdate);
    a_update.add_latency(5_000, 1_000);
    let mut b_update = Metrics::new(OperationKind::PointUpdate);
    b_update.add_latency(500, 1_000);

    let results = BenchmarkResult {
        mode_a: vec![a_insert, a_update],
        mode_b: vec![b_insert, b_update],
    };
    let report = compare_all(&results, 0, 1000);
    assert_eq!(report.len(), 2);

    let insert_rows = report[0].as_ref().unwrap();
    assert_eq!(insert_rows.len(), 8);
    assert_eq!(insert_rows[0].metric, MetricKind::Mean);
    assert_eq!(insert_rows[0].mode_a, 20_000);
    assert_eq!(insert_rows[0].mode_b, 40_000);
    assert_eq!(insert_rows[0].difference, -20_000);
    assert_eq!(insert_rows[0].percent_hundredths, Some(-5000));

    assert_eq!(report[1], Err(MyError::NoDataInWindow));
}
