use liquidio::aggregate::validate_performance_targets;
use liquidio::aggregate::AggregateMetrics;
use liquidio::aggregate::Mean;
use liquidio::aggregate::Metric;
use liquidio::aggregate::MEDIAN;
use liquidio::aggregate::PERCENT;
use liquidio::aggregate::PERCENTILE_100;
use liquidio::aggregate::PERCENTILE_95;
use liquidio::aggregate::PERCENTILE_99;
use liquidio::aggregate::MetricSummary;
use liquidio::aggregate::TargetCheck;
use liquidio::metrics::LatencyMetrics;
use liquidio::metrics::LatencyRow;
use liquidio::metrics::Stage;

fn sent_after(micros: u64) -> LatencyMetrics {
    let mut metrics = LatencyMetrics::new();
    metrics.mark_at(Stage::Sent, micros * 1000);
    metrics
}

fn full(decoded: u64, signal: u64, simulated: u64, constructed: u64, sent: u64) -> LatencyMetrics {
    let mut metrics = LatencyMetrics::new();
    metrics.mark_at(Stage::Decoded, decoded * 1000);
    metrics.mark_at(Stage::Signal, signal * 1000);
    metrics.mark_at(Stage::Simulated, simulated * 1000);
    metrics.mark_at(Stage::Constructed, constructed * 1000);
    metrics.mark_at(Stage::Sent, sent * 1000);
    metrics
}

fn end_to_end(values: &[u64]) -> AggregateMetrics {
    let mut aggregate = AggregateMetrics::new();
    for v in values {
        aggregate.record_attempt(&sent_after(*v), true);
    }
    aggregate
}

#[test]
fn new_statistics_are_empty() {
    let aggregate = AggregateMetrics::new();
    assert_eq!(aggregate.total_attempts(), 0);
    assert_eq!(aggregate.successful_liquidations(), 0);
    assert_eq!(aggregate.failed_liquidations(), 0);
    assert!(aggregate.latencies().is_empty());
    assert_eq!(aggregate.percentile(Metric::EndToEnd, 5_000), None);
    assert_eq!(aggregate.mean(Metric::EndToEnd), None);
    assert_eq!(aggregate.summarize(Metric::EndToEnd), None);
    assert_eq!(AggregateMetrics::default().total_attempts(), 0);
}

#[test]
fn attempts_are_counted_once_each() {
    let mut aggregate = AggregateMetrics::new();
    aggregate.record_attempt(&full(1, 2, 3, 4, 5), true);
    aggregate.record_attempt(&sent_after(7), false);
    aggregate.record_attempt(&LatencyMetrics::new(), false);
    assert_eq!(aggregate.total_attempts(), 3);
    assert_eq!(aggregate.successful_liquidations(), 1);
    assert_eq!(aggregate.failed_liquidations(), 2);
    assert_eq!(
        aggregate.total_attempts(),
        aggregate.successful_liquidations() + aggregate.failed_liquidations()
    );
    assert_eq!(
        aggregate.latencies(),
        &vec![
            LatencyRow {
                decode_us: Some(1),
                signal_detection_us: Some(1),
                simulation_us: Some(1),
                construction_us: Some(1),
                end_to_end_us: Some(5),
            },
            LatencyRow {
                decode_us: None,
                signal_detection_us: None,
                simulation_us: None,
                construction_us: None,
                end_to_end_us: Some(7),
            },
            LatencyRow {
                decode_us: None,
                signal_detection_us: None,
                simulation_us: None,
                construction_us: None,
                end_to_end_us: None,
            },
        ]
    );
}

#[test]
fn values_skip_the_rows_without_the_metric() {
    let mut aggregate = AggregateMetrics::new();
    aggregate.record_attempt(&full(4, 5, 6, 7, 8), true);
    aggregate.record_attempt(&sent_after(3), false);
    aggregate.record_attempt(&full(1, 9, 9, 9, 9), true);
    assert_eq!(aggregate.values(Metric::EndToEnd), vec![8, 3, 9]);
    assert_eq!(aggregate.values(Metric::Decode), vec![4, 1]);
    assert_eq!(aggregate.values(Metric::SignalDetection), vec![1, 8]);
    assert_eq!(aggregate.values(Metric::Simulation), vec![1, 0]);
    assert_eq!(aggregate.values(Metric::Construction), vec![1, 0]);
}

#[test]
fn percentile_picks_the_nearest_rank() {
    let aggregate = end_to_end(&[7, 3, 10, 1, 9, 2, 8, 4, 6, 5]);
    assert_eq!(aggregate.percentile(Metric::EndToEnd, 0), Some(1));
    assert_eq!(aggregate.percentile(Metric::EndToEnd, 900), Some(1));
    assert_eq!(aggregate.percentile(Metric::EndToEnd, 1_000), Some(2));
    assert_eq!(aggregate.percentile(Metric::EndToEnd, 5_000), Some(6));
    assert_eq!(aggregate.percentile(Metric::EndToEnd, 9_500), Some(10));
    assert_eq!(aggregate.percentile(Metric::EndToEnd, 9_900), Some(10));
    assert_eq!(aggregate.percentile(Metric::EndToEnd, 10_000), Some(10));
    assert_eq!(aggregate.percentile(Metric::EndToEnd, 25_000), Some(10));
    assert_eq!(aggregate.percentile(Metric::EndToEnd, u32::MAX), Some(10));
    assert_eq!(aggregate.percentile(Metric::Decode, 5_000), None);
}

#[test]
fn percentile_takes_fractions_of_a_percent() {
    let values: Vec<u64> = (1..=1000).collect();
    let aggregate = end_to_end(&values);
    assert_eq!(aggregate.percentile(Metric::EndToEnd, 9_990), Some(1000));
    assert_eq!(aggregate.percentile(Metric::EndToEnd, 9_989), Some(999));
    assert_eq!(aggregate.percentile(Metric::EndToEnd, 9_900), Some(991));
    assert_eq!(aggregate.percentile(Metric::EndToEnd, 9_950), Some(996));
    assert_eq!(aggregate.percentile(Metric::EndToEnd, 25), Some(3));
    assert_eq!(aggregate.percentile(Metric::EndToEnd, 9), Some(1));
    assert_eq!(aggregate.percentile(Metric::EndToEnd, 10), Some(2));
    assert_eq!(aggregate.percentile(Metric::EndToEnd, 99 * PERCENT), Some(991));
    assert_eq!(aggregate.percentile(Metric::EndToEnd, MEDIAN), Some(501));
    assert_eq!(aggregate.percentile(Metric::EndToEnd, PERCENTILE_95), Some(951));
    assert_eq!(aggregate.percentile(Metric::EndToEnd, PERCENTILE_99), Some(991));
    assert_eq!(aggregate.percentile(Metric::EndToEnd, PERCENTILE_100), Some(1000));
}

#[test]
fn hundredth_percentile_is_the_maximum_and_zeroth_the_minimum() {
    let samples: [&[u64]; 5] =
        [&[5], &[2, 2, 2], &[9, 1], &[3, 8, 8, 1, 1, 4], &[100, 7, 42, 0, 65, 7, 99]];
    for values in samples {
        let aggregate = end_to_end(values);
        assert_eq!(
            aggregate.percentile(Metric::EndToEnd, 10_000),
            values.iter().copied().max()
        );
        assert_eq!(
            aggregate.percentile(Metric::EndToEnd, 0),
            values.iter().copied().min()
        );
    }
}

#[test]
fn percentile_of_one_value_is_that_value() {
    let aggregate = end_to_end(&[42]);
    for p in [0u32, 1, 100, 5_000, 9_990, 10_000] {
        assert_eq!(aggregate.percentile(Metric::EndToEnd, p), Some(42));
    }
}

#[test]
fn mean_is_the_sum_over_the_count() {
    let aggregate = end_to_end(&[7, 3, 10, 1]);
    assert_eq!(aggregate.mean(Metric::EndToEnd), Some(Mean { sum: 21, count: 4 }));
    assert_eq!(aggregate.mean(Metric::Simulation), None);
    let large = end_to_end(&[u64::MAX / 1000, u64::MAX / 1000]);
    assert_eq!(
        large.mean(Metric::EndToEnd),
        Some(Mean { sum: 2 * (u64::MAX / 1000) as u128, count: 2 })
    );
}

#[test]
fn summary_holds_the_percentiles_and_the_mean() {
    let values: Vec<u64> = (1..=100).collect();
    let aggregate = end_to_end(&values);
    assert_eq!(
        aggregate.summarize(Metric::EndToEnd),
        Some(MetricSummary { p50: 51, p95: 96, p99: 100, mean: Mean { sum: 5050, count: 100 } })
    );
    assert_eq!(aggregate.summarize(Metric::Decode), None);
}

#[test]
fn metric_names() {
    assert_eq!(Metric::Decode.name(), "decode_us");
    assert_eq!(Metric::SignalDetection.name(), "signal_detection_us");
    assert_eq!(Metric::Simulation.name(), "simulation_us");
    assert_eq!(Metric::Construction.name(), "construction_us");
    assert_eq!(Metric::EndToEnd.name(), "end_to_end_us");
}

#[test]
fn row_values_by_metric() {
    let row = LatencyRow {
        decode_us: Some(1),
        signal_detection_us: None,
        simulation_us: Some(3),
        construction_us: Some(4),
        end_to_end_us: Some(5),
    };
    assert_eq!(row.get(Metric::Decode), Some(1));
    assert_eq!(row.get(Metric::SignalDetection), None);
    assert_eq!(row.get(Metric::Simulation), Some(3));
    assert_eq!(row.get(Metric::Construction), Some(4));
    assert_eq!(row.get(Metric::EndToEnd), Some(5));
}

#[test]
fn targets_are_met_below_their_limits() {
    let mut aggregate = AggregateMetrics::new();
    // decoded 100, signal +1999, simulated +4999, constructed +999, sent at 9999
    aggregate.record_attempt(&full(100, 2_099, 7_098, 8_097, 9_999), true);
    let report = validate_performance_targets(&aggregate);
    assert_eq!(report.end_to_end, Some(TargetCheck { p99_us: 9_999, met: true }));
    assert_eq!(report.signal_detection, Some(TargetCheck { p99_us: 1_999, met: true }));
    assert_eq!(report.simulation, Some(TargetCheck { p99_us: 4_999, met: true }));
    assert_eq!(report.construction, Some(TargetCheck { p99_us: 999, met: true }));
    assert!(report.all_targets_met);
}

#[test]
fn a_target_is_missed_at_its_limit() {
    let mut aggregate = AggregateMetrics::new();
    aggregate.record_attempt(&full(0, 2_000, 3_000, 3_500, 4_000), true);
    let report = validate_performance_targets(&aggregate);
    assert_eq!(report.signal_detection, Some(TargetCheck { p99_us: 2_000, met: false }));
    assert_eq!(report.end_to_end, Some(TargetCheck { p99_us: 4_000, met: true }));
    assert!(!report.all_targets_met);

    let slow = end_to_end(&[10_000]);
    let report = validate_performance_targets(&slow);
    assert_eq!(report.end_to_end, Some(TargetCheck { p99_us: 10_000, met: false }));
    assert!(!report.all_targets_met);
}

#[test]
fn metrics_without_values_are_not_checked() {
    let report = validate_performance_targets(&AggregateMetrics::new());
    assert_eq!(report.end_to_end, None);
    assert_eq!(report.signal_detection, None);
    assert_eq!(report.simulation, None);
    assert_eq!(report.construction, None);
    assert!(report.all_targets_met);

    let only_sent = end_to_end(&[5]);
    let report = validate_performance_targets(&only_sent);
    assert_eq!(report.end_to_end, Some(TargetCheck { p99_us: 5, met: true }));
    assert_eq!(report.simulation, None);
    assert!(report.all_targets_met);
}
