use bench_autocommit::metrics::{default_window, Metrics};
use bench_autocommit::ops::OperationKind;
use bench_autocommit::stats::{percentile, sort_latencies};

#[test]
fn stats_over_five_known_samples() {
    // Latencies of 10, 20, 30, 40, 50 ms (in microseconds): median 30 ms,
    // min 10 ms, max 50 ms, mean 30 ms.
    let mut metrics = Metrics::new(OperationKind::Insert);
    for (i, ms) in [10u64, 20, 30, 40, 50].iter().enumerate() {
        metrics.add_latency(100 + i as u64, ms * 1000);
    }
    let (stats, throughput) = metrics.calculate_stats(0, 1000).unwrap();
    assert_eq!(stats.median, 30_000);
    assert_eq!(stats.min, 10_000);
    assert_eq!(stats.max, 50_000);
    assert_eq!(stats.avg, 30_000);
    assert_eq!(stats.p95, 50_000);
    assert_eq!(stats.p99, 50_000);
    // Five samples in a one-second window: five operations per second,
    // reported in thousandths of an operation per second.
    assert_eq!(throughput, 5_000);
}

#[test]
fn an_empty_window_yields_no_data() {
    // A window with zero matching samples is "no data", never a zero-valued
    // result.
    let empty = Metrics::new(OperationKind::PointUpdate);
    assert!(empty.calculate_stats(0, 1000).is_none());

    let mut late = Metrics::new(OperationKind::PointUpdate);
    late.add_latency(5000, 1234);
    assert!(late.calculate_stats(0, 1000).is_none());
}

#[test]
fn the_window_is_inclusive_and_filters_by_timestamp() {
    let mut metrics = Metrics::new(OperationKind::RangeUpdate);
    metrics.add_latency(250, 7_000);
    metrics.add_latency(750, 9_000);
    metrics.add_latency(2000, 1_000_000);
    let (stats, _) = metrics.calculate_stats(250, 750).unwrap();
    assert_eq!(stats.min, 7_000);
    assert_eq!(stats.max, 9_000);
    assert_eq!(stats.avg, 8_000);
}

#[test]
fn an_even_count_averages_the_middle_pair() {
    let mut metrics = Metrics::new(OperationKind::Insert);
    metrics.add_latency(10, 10_000);
    metrics.add_latency(20, 20_000);
    let (stats, _) = metrics.calculate_stats(0, 100).unwrap();
    assert_eq!(stats.median, 15_000);
}

#[test]
fn errors_are_counted_and_never_sampled() {
    let mut metrics = Metrics::new(OperationKind::PointDelete);
    metrics.add_error();
    metrics.add_error();
    assert_eq!(metrics.error_count, 2);
    assert_eq!(metrics.total_ops, 0);
    assert!(metrics.calculate_stats(0, 10).is_none());
}

#[test]
fn percentile_uses_nearest_rank_on_the_sorted_data() {
    let sorted = vec![1, 2, 3];
    assert_eq!(percentile(&sorted, 95), 3);
    assert_eq!(percentile(&sorted, 50), 2);
    assert_eq!(percentile(&sorted, 0), 1);
    assert_eq!(percentile(&Vec::new(), 95), 0);
}

#[test]
fn sorting_orders_latencies_ascending() {
    let sorted = sort_latencies(&vec![30, 10, 20, 10]);
    assert_eq!(sorted, vec![10, 10, 20, 30]);
}

#[test]
fn the_default_window_is_the_middle_half() {
    assert_eq!(default_window(60_000), (15_000, 45_000));
    assert_eq!(default_window(30_000), (7_500, 22_500));
}
