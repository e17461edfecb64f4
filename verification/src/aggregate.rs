//! Latency statistics over many attempts: counters, the rows of latencies, and
//! nearest-rank percentiles and means by metric.

use crate::metrics::LatencyMetrics;
use crate::metrics::LatencyRow;
use vstd::prelude::*;
use vstd::relations::sorted_by;
use vstd::relations::total_ordering;
use vstd::seq_lib::lemma_sorted_unique;

verus! {

/// The latencies that a row can hold.
#[derive(Clone, Copy, Debug, PartialEq, Eq, Structural)]
pub enum Metric {
    Decode,
    SignalDetection,
    Simulation,
    Construction,
    EndToEnd,
}

/// The value of a metric in a row, where the row has it.
pub open spec fn row_value(row: LatencyRow, metric: Metric) -> Option<u64> {
    match metric {
        Metric::Decode => row.decode_us,
        Metric::SignalDetection => row.signal_detection_us,
        Metric::Simulation => row.simulation_us,
        Metric::Construction => row.construction_us,
        Metric::EndToEnd => row.end_to_end_us,
    }
}

/// The values of a metric in the rows that have it, in the rows' order.
pub open spec fn metric_values(rows: Seq<LatencyRow>, metric: Metric) -> Seq<u64>
    decreases rows.len(),
{
    if rows.len() == 0 {
        Seq::empty()
    } else {
        let before = metric_values(rows.drop_last(), metric);
        match row_value(rows.last(), metric) {
            Some(v) => before.push(v),
            None => before,
        }
    }
}

/// The order of the values: smaller first.
pub open spec fn at_most() -> spec_fn(u64, u64) -> bool {
    |a: u64, b: u64| a <= b
}

/// The values in ascending order.
pub open spec fn ascending(values: Seq<u64>) -> Seq<u64> {
    values.sort_by(at_most())
}

/// One percent, in the hundredths of a percent in which percentiles are
/// given: 99.9 percent is 9990.
pub const PERCENT: u32 = 100;

/// The median as a percentile.
pub const MEDIAN: u32 = 5_000;

/// The 95th percentile.
pub const PERCENTILE_95: u32 = 9_500;

/// The 99th percentile.
pub const PERCENTILE_99: u32 = 9_900;

/// The hundredth percentile.
pub const PERCENTILE_100: u32 = 10_000;

/// The nearest-rank index of a percentile among `n` values, counted from
/// zero: the percentile's share of `n` rounded down, and at most `n - 1`. The
/// percentile is given in hundredths of a percent, so its share of `n` is
/// `percentile * n / 10000`.
pub open spec fn percentile_index(percentile: nat, n: nat) -> int {
    if percentile * n / 10_000 >= n {
        n - 1
    } else {
        (percentile * n / 10_000) as int
    }
}

/// The nearest-rank percentile of the values: the value at the percentile's
/// index once they are in ascending order. There is none of no values.
pub open spec fn percentile_of(values: Seq<u64>, percentile: nat) -> Option<u64> {
    if values.len() == 0 {
        None
    } else {
        Some(ascending(values)[percentile_index(percentile, values.len())])
    }
}

/// The sum of the values.
pub open spec fn sum_of(values: Seq<u64>) -> nat
    decreases values.len(),
{
    if values.len() == 0 {
        0
    } else {
        sum_of(values.drop_last()) + values.last() as nat
    }
}

/// The arithmetic mean of some values, as their sum and their number.
#[derive(Clone, Copy, Debug, PartialEq, Eq, Structural)]
pub struct Mean {
    pub sum: u128,
    pub count: usize,
}

/// The mean of the values. There is none of no values.
pub open spec fn mean_of(values: Seq<u64>) -> Option<Mean> {
    if values.len() == 0 || values.len() > usize::MAX {
        None
    } else {
        Some(Mean { sum: sum_of(values) as u128, count: values.len() as usize })
    }
}

proof fn lemma_at_most_total()
    ensures
        total_ordering(at_most()),
{
}

/// The values in ascending order are the same values, each as often as
/// before, and none is before a smaller one.
pub proof fn lemma_ascending(values: Seq<u64>)
    ensures
        ascending(values).len() == values.len(),
        ascending(values).to_multiset() == values.to_multiset(),
        forall|i: int, j: int|
            0 <= i <= j < values.len() ==> ascending(values)[i] <= ascending(values)[j],
        forall|x: u64| values.contains(x) <==> ascending(values).contains(x),
{
    lemma_at_most_total();
    values.lemma_sort_by_ensures(at_most());
    let sorted = ascending(values);
    values.to_multiset_ensures();
    sorted.to_multiset_ensures();
    assert forall|i: int, j: int| 0 <= i <= j < values.len() implies sorted[i] <= sorted[j] by {
        if i < j {
            assert(at_most()(sorted[i], sorted[j]));
        }
    }
    assert forall|x: u64| values.contains(x) <==> sorted.contains(x) by {
        assert(values.contains(x) <==> values.to_multiset().count(x) > 0);
        assert(sorted.contains(x) <==> sorted.to_multiset().count(x) > 0);
    }
}

/// The hundredth percentile is the largest of the values, and the zeroth is
/// the smallest.
pub proof fn lemma_percentile_extremes(values: Seq<u64>)
    requires
        values.len() > 0,
    ensures
        percentile_of(values, PERCENTILE_100 as nat) is Some,
        values.contains(percentile_of(values, PERCENTILE_100 as nat)->0),
        forall|i: int|
            0 <= i < values.len() ==> values[i] <= percentile_of(
                values,
                PERCENTILE_100 as nat,
            )->0,
        percentile_of(values, 0) is Some,
        values.contains(percentile_of(values, 0)->0),
        forall|i: int| 0 <= i < values.len() ==> percentile_of(values, 0)->0 <= values[i],
{
    lemma_ascending(values);
    let sorted = ascending(values);
    let n = values.len() as int;
    assert(percentile_index(10_000, values.len()) == n - 1);
    assert(percentile_index(0, values.len()) == 0);
    assert(sorted.contains(sorted[n - 1]));
    assert(sorted.contains(sorted[0]));
    assert forall|i: int| 0 <= i < values.len() implies sorted[0] <= values[i] && values[i]
        <= sorted[n - 1] by {
        assert(values.contains(values[i]));
        assert(sorted.contains(values[i]));
        let k = sorted.index_of(values[i]);
        assert(sorted[0] <= sorted[k]);
        assert(sorted[k] <= sorted[n - 1]);
    }
}

/// A larger percentile never gives a smaller value.
pub proof fn lemma_percentile_monotonic(values: Seq<u64>, low: nat, high: nat)
    requires
        values.len() > 0,
        low <= high,
    ensures
        percentile_of(values, low)->0 <= percentile_of(values, high)->0,
{
    lemma_ascending(values);
    let n = values.len();
    assert(low * n <= high * n) by (nonlinear_arith)
        requires
            low <= high,
    ;
    assert(0 <= percentile_index(low, n) <= percentile_index(high, n) < n);
}

impl LatencyRow {
    /// The value of a metric in the row, where the row has it.
    pub fn get(&self, metric: Metric) -> (r: Option<u64>)
        ensures
            r == row_value(*self, metric),
    {
        match metric {
            Metric::Decode => self.decode_us,
            Metric::SignalDetection => self.signal_detection_us,
            Metric::Simulation => self.simulation_us,
            Metric::Construction => self.construction_us,
            Metric::EndToEnd => self.end_to_end_us,
        }
    }
}

impl Metric {
    /// The name under which the metric is reported.
    pub fn name(self) -> (r: &'static str)
        ensures
            r@ == match self {
                Metric::Decode => "decode_us"@,
                Metric::SignalDetection => "signal_detection_us"@,
                Metric::Simulation => "simulation_us"@,
                Metric::Construction => "construction_us"@,
                Metric::EndToEnd => "end_to_end_us"@,
            },
    {
        match self {
            Metric::Decode => "decode_us",
            Metric::SignalDetection => "signal_detection_us",
            Metric::Simulation => "simulation_us",
            Metric::Construction => "construction_us",
            Metric::EndToEnd => "end_to_end_us",
        }
    }
}

/// `slice::sort`: puts the values in ascending order. The result holds the
/// same values, each as often as before.
#[verifier::external_body]
fn sort_values(values: &mut Vec<u64>)
    ensures
        sorted_by(final(values)@, at_most()),
        final(values)@.to_multiset() == old(values)@.to_multiset(),
{
    values.sort();
}

/// The percentiles and the mean of one metric.
#[derive(Clone, Copy, Debug, PartialEq, Eq, Structural)]
pub struct MetricSummary {
    pub p50: u64,
    pub p95: u64,
    pub p99: u64,
    pub mean: Mean,
}

/// The summary of the values of one metric. There is none of no values.
pub open spec fn summary_of(values: Seq<u64>) -> Option<MetricSummary> {
    if values.len() == 0 || values.len() > usize::MAX {
        None
    } else {
        Some(
            MetricSummary {
                p50: percentile_of(values, MEDIAN as nat)->0,
                p95: percentile_of(values, PERCENTILE_95 as nat)->0,
                p99: percentile_of(values, PERCENTILE_99 as nat)->0,
                mean: mean_of(values)->0,
            },
        )
    }
}

/// The counters and the latency rows of a run. Every attempt is counted once,
/// as a success or as a failure, and has one row (`wf`).
#[derive(Clone, Debug)]
pub struct AggregateMetrics {
    total_attempts: usize,
    successful_liquidations: usize,
    failed_liquidations: usize,
    latencies: Vec<LatencyRow>,
}

impl AggregateMetrics {
    /// The number of attempts recorded.
    pub closed spec fn total(&self) -> nat {
        self.total_attempts as nat
    }

    /// The number of attempts recorded as successful.
    pub closed spec fn successes(&self) -> nat {
        self.successful_liquidations as nat
    }

    /// The number of attempts recorded as failed.
    pub closed spec fn failures(&self) -> nat {
        self.failed_liquidations as nat
    }

    /// The latency rows, one for each attempt, in the order of recording.
    pub closed spec fn rows(&self) -> Seq<LatencyRow> {
        self.latencies@
    }

    /// Every attempt is a success or a failure and has one row.
    pub open spec fn wf(&self) -> bool {
        &&& self.total() == self.successes() + self.failures()
        &&& self.rows().len() == self.total()
    }

    /// Statistics of no attempts.
    pub fn new() -> (r: AggregateMetrics)
        ensures
            r.wf(),
            r.total() == 0,
            r.successes() == 0,
            r.failures() == 0,
            r.rows() == Seq::<LatencyRow>::empty(),
    {
        AggregateMetrics {
            total_attempts: 0,
            successful_liquidations: 0,
            failed_liquidations: 0,
            latencies: Vec::new(),
        }
    }

    /// The number of attempts recorded.
    pub fn total_attempts(&self) -> (r: usize)
        ensures
            r == self.total(),
    {
        self.total_attempts
    }

    /// The number of attempts recorded as successful.
    pub fn successful_liquidations(&self) -> (r: usize)
        ensures
            r == self.successes(),
    {
        self.successful_liquidations
    }

    /// The number of attempts recorded as failed.
    pub fn failed_liquidations(&self) -> (r: usize)
        ensures
            r == self.failures(),
    {
        self.failed_liquidations
    }

    /// The latency rows, one for each attempt, in the order of recording.
    pub fn latencies(&self) -> (r: &Vec<LatencyRow>)
        ensures
            r@ == self.rows(),
    {
        &self.latencies
    }

    /// Records one attempt: counts it, as a success or as a failure, and
    /// appends the row of latencies that its record gives.
    pub fn record_attempt(&mut self, metrics: &LatencyMetrics, success: bool)
        requires
            old(self).wf(),
            old(self).total() < usize::MAX,
        ensures
            final(self).wf(),
            final(self).total() == old(self).total() + 1,
            final(self).successes() == old(self).successes() + if success {
                1nat
            } else {
                0nat
            },
            final(self).failures() == old(self).failures() + if success {
                0nat
            } else {
                1nat
            },
            final(self).rows() == old(self).rows().push(metrics@.row()),
    {
        self.total_attempts = self.total_attempts + 1;
        if success {
            self.successful_liquidations = self.successful_liquidations + 1;
        } else {
            self.failed_liquidations = self.failed_liquidations + 1;
        }
        self.latencies.push(metrics.get_all_latencies());
    }

    /// The values of a metric in the rows that have it, in the rows' order.
    pub fn values(&self, metric: Metric) -> (r: Vec<u64>)
        ensures
            r@ == metric_values(self.rows(), metric),
    {
        let mut values: Vec<u64> = Vec::new();
        let mut i: usize = 0;
        assert(self.latencies@.take(0) =~= Seq::<LatencyRow>::empty());
        while i < self.latencies.len()
            invariant
                i <= self.latencies.len(),
                values@ == metric_values(self.latencies@.take(i as int), metric),
            decreases self.latencies.len() - i,
        {
            assert(self.latencies@.take(i as int + 1).drop_last() =~= self.latencies@.take(
                i as int,
            ));
            match self.latencies[i].get(metric) {
                Some(v) => {
                    values.push(v);
                },
                None => {},
            }
            i += 1;
        }
        assert(self.latencies@.take(i as int) =~= self.latencies@);
        values
    }

    /// The nearest-rank percentile of a metric over the rows that have it;
    /// `None` where no row has it. `percentile` is in hundredths of a percent:
    /// 9990 asks for the 99.9th percentile. One above the hundredth gives what
    /// the hundredth gives.
    pub fn percentile(&self, metric: Metric, percentile: u32) -> (r: Option<u64>)
        ensures
            r == percentile_of(metric_values(self.rows(), metric), percentile as nat),
    {
        let mut values = self.values(metric);
        if values.len() == 0 {
            return None;
        }
        let ghost unsorted = values@;
        sort_values(&mut values);
        proof {
            lemma_at_most_total();
            lemma_ascending(unsorted);
            unsorted.lemma_sort_by_ensures(at_most());
            lemma_sorted_unique(values@, ascending(unsorted), at_most());
            values@.to_multiset_ensures();
            unsorted.to_multiset_ensures();
        }
        let n: usize = values.len();
        assert((percentile as u128) * (n as u128) <= 0xFFFF_FFFF * 0xFFFF_FFFF_FFFF_FFFF)
            by (nonlinear_arith)
            requires
                percentile <= 0xFFFF_FFFF,
                n <= 0xFFFF_FFFF_FFFF_FFFF,
        ;
        let rank: u128 = (percentile as u128) * (n as u128) / 10_000;
        let index: usize = if rank >= n as u128 {
            n - 1
        } else {
            rank as usize
        };
        Some(values[index])
    }

    /// The mean of a metric over the rows that have it, as the sum and the
    /// number of its values; `None` where no row has it.
    pub fn mean(&self, metric: Metric) -> (r: Option<Mean>)
        ensures
            r == mean_of(metric_values(self.rows(), metric)),
    {
        let values = self.values(metric);
        if values.len() == 0 {
            return None;
        }
        let mut sum: u128 = 0;
        let mut i: usize = 0;
        assert(values@.take(0) =~= Seq::<u64>::empty());
        while i < values.len()
            invariant
                i <= values.len(),
                sum == sum_of(values@.take(i as int)),
                sum <= i * 0xFFFF_FFFF_FFFF_FFFF,
            decreases values.len() - i,
        {
            assert(values@.take(i as int + 1).drop_last() =~= values@.take(i as int));
            sum = sum + values[i] as u128;
            i += 1;
        }
        assert(values@.take(i as int) =~= values@);
        Some(Mean { sum, count: values.len() })
    }

    /// The median, the 95th and the 99th percentile and the mean of a metric;
    /// `None` where no row has it.
    pub fn summarize(&self, metric: Metric) -> (r: Option<MetricSummary>)
        ensures
            r == summary_of(metric_values(self.rows(), metric)),
    {
        match (
            self.percentile(metric, MEDIAN),
            self.percentile(metric, PERCENTILE_95),
            self.percentile(metric, PERCENTILE_99),
            self.mean(metric),
        ) {
            (Some(p50), Some(p95), Some(p99), Some(mean)) => Some(
                MetricSummary { p50, p95, p99, mean },
            ),
            _ => None,
        }
    }
}

impl Default for AggregateMetrics {
    fn default() -> (r: AggregateMetrics)
        ensures
            r.wf(),
            r.total() == 0,
            r.rows() == Seq::<LatencyRow>::empty(),
    {
        AggregateMetrics::new()
    }
}

/// The 99th percentile of the time from receipt to sending is to stay below
/// this, in microseconds: 10 ms.
pub const END_TO_END_TARGET_US: u64 = 10_000;

/// The 99th percentile of the signal detection is to stay below this, in
/// microseconds: 2 ms.
pub const SIGNAL_DETECTION_TARGET_US: u64 = 2_000;

/// The 99th percentile of the simulation is to stay below this, in
/// microseconds: 5 ms.
pub const SIMULATION_TARGET_US: u64 = 5_000;

/// The 99th percentile of the transaction construction is to stay below this,
/// in microseconds: 1 ms.
pub const CONSTRUCTION_TARGET_US: u64 = 1_000;

/// The 99th percentile of one metric, and whether it is below its target.
#[derive(Clone, Copy, Debug, PartialEq, Eq, Structural)]
pub struct TargetCheck {
    pub p99_us: u64,
    pub met: bool,
}

/// How a run did against the latency targets. A metric that no row has is not
/// checked, and does not count against the run.
#[derive(Clone, Copy, Debug, PartialEq, Eq, Structural)]
pub struct PerformanceReport {
    pub end_to_end: Option<TargetCheck>,
    pub signal_detection: Option<TargetCheck>,
    pub simulation: Option<TargetCheck>,
    pub construction: Option<TargetCheck>,
    pub all_targets_met: bool,
}

/// The check of the values of one metric against its target.
pub open spec fn target_check(values: Seq<u64>, target_us: u64) -> Option<TargetCheck> {
    match percentile_of(values, PERCENTILE_99 as nat) {
        Some(p99) => Some(TargetCheck { p99_us: p99, met: p99 < target_us }),
        None => None,
    }
}

/// Whether a check does not count against the run.
pub open spec fn passed(check: Option<TargetCheck>) -> bool {
    check is Some ==> check->0.met
}

/// The report on the rows of a run.
pub open spec fn performance_report(rows: Seq<LatencyRow>) -> PerformanceReport {
    let end_to_end = target_check(metric_values(rows, Metric::EndToEnd), END_TO_END_TARGET_US);
    let signal_detection = target_check(
        metric_values(rows, Metric::SignalDetection),
        SIGNAL_DETECTION_TARGET_US,
    );
    let simulation = target_check(metric_values(rows, Metric::Simulation), SIMULATION_TARGET_US);
    let construction = target_check(
        metric_values(rows, Metric::Construction),
        CONSTRUCTION_TARGET_US,
    );
    PerformanceReport {
        end_to_end,
        signal_detection,
        simulation,
        construction,
        all_targets_met: passed(end_to_end) && passed(signal_detection) && passed(simulation)
            && passed(construction),
    }
}

fn check_target(metrics: &AggregateMetrics, metric: Metric, target_us: u64) -> (r: Option<
    TargetCheck,
>)
    ensures
        r == target_check(metric_values(metrics.rows(), metric), target_us),
{
    match metrics.percentile(metric, PERCENTILE_99) {
        Some(p99) => Some(TargetCheck { p99_us: p99, met: p99 < target_us }),
        None => None,
    }
}

fn check_passed(check: &Option<TargetCheck>) -> (r: bool)
    ensures
        r == passed(*check),
{
    match check {
        Some(c) => c.met,
        None => true,
    }
}

/// Holds the 99th percentiles of a run against the latency targets.
pub fn validate_performance_targets(metrics: &AggregateMetrics) -> (r: PerformanceReport)
    ensures
        r == performance_report(metrics.rows()),
{
    let end_to_end = check_target(metrics, Metric::EndToEnd, END_TO_END_TARGET_US);
    let signal_detection = check_target(
        metrics,
        Metric::SignalDetection,
        SIGNAL_DETECTION_TARGET_US,
    );
    let simulation = check_target(metrics, Metric::Simulation, SIMULATION_TARGET_US);
    let construction = check_target(metrics, Metric::Construction, CONSTRUCTION_TARGET_US);
    let all_targets_met = check_passed(&end_to_end) && check_passed(&signal_detection)
        && check_passed(&simulation) && check_passed(&construction);
    PerformanceReport { end_to_end, signal_detection, simulation, construction, all_targets_met }
}

} // verus!
