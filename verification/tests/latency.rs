use liquidio::metrics::cap_nanos;
use liquidio::metrics::LatencyMetrics;
use liquidio::metrics::LatencyRow;
use liquidio::metrics::Stage;

const STAGES: [Stage; 5] =
    [Stage::Decoded, Stage::Signal, Stage::Simulated, Stage::Constructed, Stage::Sent];

fn assert_ordered(metrics: &LatencyMetrics) {
    let mut latest = 0u64;
    for stage in STAGES {
        if let Some(t) = metrics.checkpoint(stage) {
            assert!(latest <= t, "{:?} at {} is before {}", stage, t, latest);
            latest = t;
        }
    }
}

#[test]
fn new_record_has_no_stage() {
    let metrics = LatencyMetrics::new();
    for stage in STAGES {
        assert_eq!(metrics.checkpoint(stage), None);
    }
    assert_eq!(metrics.latency_decode(), None);
    assert_eq!(metrics.latency_signal_detection(), None);
    assert_eq!(metrics.latency_simulation(), None);
    assert_eq!(metrics.latency_construction(), None);
    assert_eq!(metrics.latency_end_to_end(), None);
    let same = LatencyMetrics::default();
    for stage in STAGES {
        assert_eq!(same.checkpoint(stage), None);
    }
}

#[test]
fn latencies_are_the_differences_of_the_checkpoints() {
    let mut metrics = LatencyMetrics::new();
    metrics.mark_at(Stage::Decoded, 1_500);
    metrics.mark_at(Stage::Signal, 4_000);
    metrics.mark_at(Stage::Simulated, 9_999);
    metrics.mark_at(Stage::Constructed, 12_000);
    metrics.mark_at(Stage::Sent, 20_500);
    assert_eq!(metrics.latency_decode(), Some(1_500));
    assert_eq!(metrics.latency_signal_detection(), Some(2_500));
    assert_eq!(metrics.latency_simulation(), Some(5_999));
    assert_eq!(metrics.latency_construction(), Some(2_001));
    assert_eq!(metrics.latency_end_to_end(), Some(20_500));
    assert_eq!(
        metrics.get_all_latencies(),
        LatencyRow {
            decode_us: Some(1),
            signal_detection_us: Some(2),
            simulation_us: Some(5),
            construction_us: Some(2),
            end_to_end_us: Some(20),
        }
    );
}

#[test]
fn a_latency_needs_both_of_its_checkpoints() {
    let mut metrics = LatencyMetrics::new();
    metrics.mark_at(Stage::Signal, 4_000);
    assert_eq!(metrics.latency_decode(), None);
    assert_eq!(metrics.latency_signal_detection(), None);
    assert_eq!(metrics.latency_simulation(), None);
    metrics.mark_at(Stage::Simulated, 6_000);
    assert_eq!(metrics.latency_simulation(), Some(2_000));
    assert_eq!(metrics.latency_construction(), None);
    assert_eq!(metrics.latency_end_to_end(), None);
    assert_eq!(
        metrics.get_all_latencies(),
        LatencyRow {
            decode_us: None,
            signal_detection_us: None,
            simulation_us: Some(2),
            construction_us: None,
            end_to_end_us: None,
        }
    );
}

#[test]
fn marking_twice_keeps_the_first_checkpoint() {
    let mut metrics = LatencyMetrics::new();
    metrics.mark_at(Stage::Decoded, 100);
    metrics.mark_at(Stage::Decoded, 900);
    assert_eq!(metrics.checkpoint(Stage::Decoded), Some(100));
    metrics.mark_decoded();
    assert_eq!(metrics.checkpoint(Stage::Decoded), Some(100));
    metrics.mark_at(Stage::Sent, 5_000);
    metrics.mark_sent();
    metrics.mark_at(Stage::Sent, 1);
    assert_eq!(metrics.checkpoint(Stage::Sent), Some(5_000));
}

#[test]
fn a_clock_reading_before_an_earlier_stage_is_moved_up() {
    let mut metrics = LatencyMetrics::new();
    metrics.mark_at(Stage::Decoded, 1_000);
    metrics.mark_at(Stage::Simulated, 400);
    assert_eq!(metrics.checkpoint(Stage::Simulated), Some(1_000));
    metrics.mark_at(Stage::Sent, 0);
    assert_eq!(metrics.checkpoint(Stage::Sent), Some(1_000));
    assert_ordered(&metrics);
}

#[test]
fn a_stage_marked_late_is_placed_between_its_neighbours() {
    let mut metrics = LatencyMetrics::new();
    metrics.mark_at(Stage::Decoded, 1_000);
    metrics.mark_at(Stage::Constructed, 3_000);
    metrics.mark_at(Stage::Signal, 9_000);
    assert_eq!(metrics.checkpoint(Stage::Signal), Some(3_000));
    metrics.mark_at(Stage::Simulated, 500);
    assert_eq!(metrics.checkpoint(Stage::Simulated), Some(3_000));
    metrics.mark_at(Stage::Sent, 2_000);
    assert_eq!(metrics.checkpoint(Stage::Sent), Some(3_000));
    assert_ordered(&metrics);

    let mut other = LatencyMetrics::new();
    other.mark_at(Stage::Sent, 8_000);
    other.mark_at(Stage::Signal, 2_000);
    other.mark_at(Stage::Decoded, 2_500);
    assert_eq!(other.checkpoint(Stage::Decoded), Some(2_000));
    other.mark_at(Stage::Constructed, 5_000);
    assert_eq!(other.checkpoint(Stage::Constructed), Some(5_000));
    other.mark_at(Stage::Simulated, 7_000);
    assert_eq!(other.checkpoint(Stage::Simulated), Some(5_000));
    assert_ordered(&other);
}

#[test]
fn checkpoints_stay_ordered_under_any_marks() {
    let readings = [0u64, 7, 3, u64::MAX, 12, 5, 5, 1_000, 2];
    for first in 0..5usize {
        for second in 0..5usize {
            for third in 0..5usize {
                for shift in 0..readings.len() {
                    let mut metrics = LatencyMetrics::new();
                    metrics.mark_at(STAGES[first], readings[shift]);
                    metrics.mark_at(STAGES[second], readings[(shift + 1) % readings.len()]);
                    metrics.mark_at(STAGES[third], readings[(shift + 2) % readings.len()]);
                    assert_ordered(&metrics);
                }
            }
        }
    }
}

#[test]
fn clock_marks_in_pipeline_order_are_ordered() {
    let mut metrics = LatencyMetrics::new();
    metrics.mark_decoded();
    metrics.mark_signal();
    metrics.mark_simulated();
    metrics.mark_constructed();
    metrics.mark_sent();
    for stage in STAGES {
        assert!(metrics.checkpoint(stage).is_some());
    }
    assert_ordered(&metrics);
    let total = metrics.latency_decode().unwrap()
        + metrics.latency_signal_detection().unwrap()
        + metrics.latency_simulation().unwrap()
        + metrics.latency_construction().unwrap();
    assert!(total <= metrics.latency_end_to_end().unwrap());
}

#[test]
fn the_clock_does_not_run_backwards() {
    let metrics = LatencyMetrics::new();
    let first = metrics.elapsed_nanos();
    let second = metrics.elapsed_nanos();
    assert!(first <= second);
}

#[test]
fn microseconds_are_rounded_down() {
    let mut metrics = LatencyMetrics::new();
    metrics.mark_at(Stage::Decoded, 999);
    metrics.mark_at(Stage::Sent, 1_000);
    let row = metrics.get_all_latencies();
    assert_eq!(row.decode_us, Some(0));
    assert_eq!(row.end_to_end_us, Some(1));
}

#[test]
fn a_record_is_opened_at_the_time_of_the_call() {
    let before = std::time::Instant::now();
    let metrics = LatencyMetrics::new();
    let after = std::time::Instant::now();
    assert!(before <= metrics.received_at());
    assert!(metrics.received_at() <= after);
    let mut marked = metrics;
    marked.mark_signal();
    assert_eq!(marked.received_at(), metrics.received_at());
}

#[test]
fn a_record_opened_at_an_instant_counts_from_it() {
    let received = std::time::Instant::now();
    let metrics = LatencyMetrics::opened_at(received);
    assert_eq!(metrics.received_at(), received);
    for stage in STAGES {
        assert_eq!(metrics.checkpoint(stage), None);
    }
    let earlier = received - std::time::Duration::from_millis(5);
    let older = LatencyMetrics::opened_at(earlier);
    assert_eq!(older.received_at(), earlier);
    assert!(older.elapsed_nanos() >= 5_000_000);
}

#[test]
fn nanoseconds_are_cut_to_64_bits() {
    assert_eq!(cap_nanos(0), 0);
    assert_eq!(cap_nanos(1_500), 1_500);
    assert_eq!(cap_nanos(u64::MAX as u128), u64::MAX);
    assert_eq!(cap_nanos(u64::MAX as u128 + 1), u64::MAX);
    assert_eq!(cap_nanos(u128::MAX), u64::MAX);
}
