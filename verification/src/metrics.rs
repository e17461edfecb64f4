//! Per-opportunity latency checkpoints.
//!
//! A record is opened when an event is received and collects, stage by stage,
//! how many nanoseconds after receipt each later stage was reached.

use std::time::Duration;
use std::time::Instant;
use vstd::prelude::*;

verus! {

#[verifier::external_type_specification]
#[verifier::external_body]
pub struct ExInstant(std::time::Instant);

/// The pipeline stages after receipt, in pipeline order.
#[derive(Clone, Copy, Debug, PartialEq, Eq, Structural)]
pub enum Stage {
    Decoded,
    Signal,
    Simulated,
    Constructed,
    Sent,
}

/// What a latency record holds: for each stage, the nanoseconds between receipt
/// and the stage, where the stage was reached. Receipt itself is at zero.
pub struct Checkpoints {
    pub decoded: Option<u64>,
    pub signal: Option<u64>,
    pub simulated: Option<u64>,
    pub constructed: Option<u64>,
    pub sent: Option<u64>,
}

/// `a` is not after `b`, where both are set.
pub open spec fn not_after(a: Option<u64>, b: Option<u64>) -> bool {
    a is Some && b is Some ==> a->0 <= b->0
}

/// `a` where it is set, else `d`.
pub open spec fn value_or(a: Option<u64>, d: u64) -> u64 {
    match a {
        Some(t) => t,
        None => d,
    }
}

/// The difference of two checkpoints, where both are set.
pub open spec fn span(from: Option<u64>, to: Option<u64>) -> Option<u64> {
    if from is Some && to is Some && from->0 <= to->0 {
        Some((to->0 - from->0) as u64)
    } else {
        None
    }
}

impl Checkpoints {
    /// The record right after receipt: no later stage reached.
    pub open spec fn empty() -> Checkpoints {
        Checkpoints { decoded: None, signal: None, simulated: None, constructed: None, sent: None }
    }

    /// The checkpoint of `stage`.
    pub open spec fn get(self, stage: Stage) -> Option<u64> {
        match stage {
            Stage::Decoded => self.decoded,
            Stage::Signal => self.signal,
            Stage::Simulated => self.simulated,
            Stage::Constructed => self.constructed,
            Stage::Sent => self.sent,
        }
    }

    /// The record with the checkpoint of `stage` set to `t`.
    pub open spec fn set(self, stage: Stage, t: u64) -> Checkpoints {
        match stage {
            Stage::Decoded => Checkpoints { decoded: Some(t), ..self },
            Stage::Signal => Checkpoints { signal: Some(t), ..self },
            Stage::Simulated => Checkpoints { simulated: Some(t), ..self },
            Stage::Constructed => Checkpoints { constructed: Some(t), ..self },
            Stage::Sent => Checkpoints { sent: Some(t), ..self },
        }
    }

    /// The checkpoints that are set do not decrease in pipeline order:
    /// received <= decoded <= signal <= simulated <= constructed <= sent.
    pub open spec fn ordered(self) -> bool {
        &&& not_after(self.decoded, self.signal)
        &&& not_after(self.decoded, self.simulated)
        &&& not_after(self.decoded, self.constructed)
        &&& not_after(self.decoded, self.sent)
        &&& not_after(self.signal, self.simulated)
        &&& not_after(self.signal, self.constructed)
        &&& not_after(self.signal, self.sent)
        &&& not_after(self.simulated, self.constructed)
        &&& not_after(self.simulated, self.sent)
        &&& not_after(self.constructed, self.sent)
    }

    /// The latest checkpoint that is set before `stage`; receipt, at zero,
    /// where none is.
    pub open spec fn latest_before(self, stage: Stage) -> u64 {
        match stage {
            Stage::Decoded => 0,
            Stage::Signal => value_or(self.decoded, 0),
            Stage::Simulated => value_or(self.signal, value_or(self.decoded, 0)),
            Stage::Constructed => value_or(
                self.simulated,
                value_or(self.signal, value_or(self.decoded, 0)),
            ),
            Stage::Sent => value_or(
                self.constructed,
                value_or(self.simulated, value_or(self.signal, value_or(self.decoded, 0))),
            ),
        }
    }

    /// The earliest checkpoint that is set after `stage`; `u64::MAX` where
    /// none is.
    pub open spec fn earliest_after(self, stage: Stage) -> u64 {
        match stage {
            Stage::Decoded => value_or(
                self.signal,
                value_or(
                    self.simulated,
                    value_or(self.constructed, value_or(self.sent, u64::MAX)),
                ),
            ),
            Stage::Signal => value_or(
                self.simulated,
                value_or(self.constructed, value_or(self.sent, u64::MAX)),
            ),
            Stage::Simulated => value_or(self.constructed, value_or(self.sent, u64::MAX)),
            Stage::Constructed => value_or(self.sent, u64::MAX),
            Stage::Sent => u64::MAX,
        }
    }

    /// The time recorded for `stage` when the clock reads `now`: `now` itself,
    /// unless that would put the stage before an earlier checkpoint or after a
    /// later one; then the nearest time that keeps the order.
    pub open spec fn placed(self, stage: Stage, now: u64) -> u64 {
        if now < self.latest_before(stage) {
            self.latest_before(stage)
        } else if now > self.earliest_after(stage) {
            self.earliest_after(stage)
        } else {
            now
        }
    }

    /// The record after `stage` is marked when the clock reads `now`. A stage
    /// that is already set keeps its checkpoint.
    pub open spec fn mark(self, stage: Stage, now: u64) -> Checkpoints {
        if self.get(stage) is Some {
            self
        } else {
            self.set(stage, self.placed(stage, now))
        }
    }

    /// Nanoseconds from receipt to decoding.
    pub open spec fn decode(self) -> Option<u64> {
        self.decoded
    }

    /// Nanoseconds from decoding to signal detection.
    pub open spec fn signal_detection(self) -> Option<u64> {
        span(self.decoded, self.signal)
    }

    /// Nanoseconds from signal detection to the end of the simulation.
    pub open spec fn simulation(self) -> Option<u64> {
        span(self.signal, self.simulated)
    }

    /// Nanoseconds from the end of the simulation to the constructed
    /// transaction.
    pub open spec fn construction(self) -> Option<u64> {
        span(self.simulated, self.constructed)
    }

    /// Nanoseconds from receipt to sending.
    pub open spec fn end_to_end(self) -> Option<u64> {
        self.sent
    }
}

/// Marking a stage keeps the checkpoints in pipeline order, whatever the clock
/// reads and whichever stages were marked before.
pub proof fn lemma_mark_keeps_order(c: Checkpoints, stage: Stage, now: u64)
    requires
        c.ordered(),
    ensures
        c.mark(stage, now).ordered(),
        c.latest_before(stage) <= c.earliest_after(stage),
{
}

/// Marking a stage a second time changes nothing.
pub proof fn lemma_mark_idempotent(c: Checkpoints, stage: Stage, first: u64, second: u64)
    ensures
        c.mark(stage, first).mark(stage, second) == c.mark(stage, first),
{
}

/// Where the stages are marked in pipeline order and the clock does not run
/// backwards, each stage records the clock reading itself.
pub proof fn lemma_mark_in_order_records_now(c: Checkpoints, stage: Stage, now: u64)
    requires
        c.ordered(),
        c.get(stage) is None,
        c.latest_before(stage) <= now,
        c.earliest_after(stage) == u64::MAX,
    ensures
        c.mark(stage, now).get(stage) == Some(now),
{
}

/// `Instant::now`: the monotonic clock's reading. Nothing is claimed of it.
#[verifier::external_body]
fn clock_now() -> Instant {
    Instant::now()
}

/// `Instant::saturating_duration_since`: the time from `origin` to `later`, or
/// no time where `later` is the earlier. Nothing is claimed of it.
#[verifier::external_body]
fn time_between(origin: Instant, later: Instant) -> Duration {
    later.saturating_duration_since(origin)
}

/// `Duration::as_nanos`: the duration in whole nanoseconds. Nothing is claimed
/// of it.
#[verifier::external_body]
fn whole_nanos(d: Duration) -> u128 {
    d.as_nanos()
}

/// One row of latencies in whole microseconds, by metric; a metric is absent
/// where one of its two checkpoints is.
#[derive(Clone, Copy, Debug, PartialEq, Eq, Structural)]
pub struct LatencyRow {
    pub decode_us: Option<u64>,
    pub signal_detection_us: Option<u64>,
    pub simulation_us: Option<u64>,
    pub construction_us: Option<u64>,
    pub end_to_end_us: Option<u64>,
}

/// Nanoseconds in whole microseconds, rounded down.
pub open spec fn to_micros(nanos: Option<u64>) -> Option<u64> {
    match nanos {
        Some(n) => Some(n / 1000),
        None => None,
    }
}

impl Checkpoints {
    /// The row of latencies that the record gives.
    pub open spec fn row(self) -> LatencyRow {
        LatencyRow {
            decode_us: to_micros(self.decode()),
            signal_detection_us: to_micros(self.signal_detection()),
            simulation_us: to_micros(self.simulation()),
            construction_us: to_micros(self.construction()),
            end_to_end_us: to_micros(self.end_to_end()),
        }
    }
}

/// A count of nanoseconds as a checkpoint: the count itself where it fits in
/// 64 bits, else the largest checkpoint.
pub open spec fn capped_nanos(nanos: u128) -> u64 {
    if nanos > u64::MAX {
        u64::MAX
    } else {
        nanos as u64
    }
}

/// A count of nanoseconds as a checkpoint.
pub fn cap_nanos(nanos: u128) -> (r: u64)
    ensures
        r == capped_nanos(nanos),
{
    if nanos > 0xFFFF_FFFF_FFFF_FFFF {
        0xFFFF_FFFF_FFFF_FFFF
    } else {
        nanos as u64
    }
}

/// The latency record of one opportunity. Its checkpoints are always in
/// pipeline order.
#[derive(Clone, Copy, Debug)]
pub struct LatencyMetrics {
    t_received: Instant,
    t_decoded: Option<u64>,
    t_signal: Option<u64>,
    t_simulated: Option<u64>,
    t_constructed: Option<u64>,
    t_sent: Option<u64>,
}

impl View for LatencyMetrics {
    type V = Checkpoints;

    closed spec fn view(&self) -> Checkpoints {
        Checkpoints {
            decoded: self.t_decoded,
            signal: self.t_signal,
            simulated: self.t_simulated,
            constructed: self.t_constructed,
            sent: self.t_sent,
        }
    }
}

fn exec_value_or(a: Option<u64>, d: u64) -> (r: u64)
    ensures
        r == value_or(a, d),
{
    match a {
        Some(t) => t,
        None => d,
    }
}

fn exec_span(from: Option<u64>, to: Option<u64>) -> (r: Option<u64>)
    ensures
        r == span(from, to),
{
    match (from, to) {
        (Some(a), Some(b)) => if a <= b {
            Some(b - a)
        } else {
            None
        },
        _ => None,
    }
}

fn exec_to_micros(nanos: Option<u64>) -> (r: Option<u64>)
    ensures
        r == to_micros(nanos),
{
    match nanos {
        Some(n) => Some(n / 1000),
        None => None,
    }
}

impl LatencyMetrics {
    /// Holds of every record: its checkpoints are in pipeline order.
    #[verifier::type_invariant]
    pub open spec fn checkpoints_ordered(self) -> bool {
        self@.ordered()
    }

    /// The instant of receipt, from which the checkpoints are counted.
    pub closed spec fn received(&self) -> Instant {
        self.t_received
    }

    /// Opens a record at the current instant, with no stage reached.
    pub fn new() -> (r: LatencyMetrics)
        ensures
            r@ == Checkpoints::empty(),
            r@.ordered(),
    {
        LatencyMetrics::opened_at(clock_now())
    }

    /// Opens a record for an event received at the given instant, with no
    /// stage reached.
    pub fn opened_at(received: Instant) -> (r: LatencyMetrics)
        ensures
            r.received() == received,
            r@ == Checkpoints::empty(),
            r@.ordered(),
    {
        LatencyMetrics {
            t_received: received,
            t_decoded: None,
            t_signal: None,
            t_simulated: None,
            t_constructed: None,
            t_sent: None,
        }
    }

    /// The instant of receipt.
    pub fn received_at(&self) -> (r: Instant)
        ensures
            r == self.received(),
    {
        self.t_received
    }

    /// The checkpoint of `stage`, in nanoseconds after receipt.
    pub fn checkpoint(&self, stage: Stage) -> (r: Option<u64>)
        ensures
            r == self@.get(stage),
            self@.ordered(),
    {
        proof {
            use_type_invariant(self);
        }
        match stage {
            Stage::Decoded => self.t_decoded,
            Stage::Signal => self.t_signal,
            Stage::Simulated => self.t_simulated,
            Stage::Constructed => self.t_constructed,
            Stage::Sent => self.t_sent,
        }
    }

    /// Nanoseconds since receipt on the monotonic clock, at most `u64::MAX`.
    pub fn elapsed_nanos(&self) -> (r: u64) {
        cap_nanos(whole_nanos(time_between(self.t_received, clock_now())))
    }

    /// Marks `stage` as reached `now` nanoseconds after receipt. A stage that
    /// is already marked keeps its checkpoint. Otherwise `now` is recorded,
    /// moved where needed to the nearest time that is not before an earlier
    /// checkpoint and not after a later one.
    pub fn mark_at(&mut self, stage: Stage, now: u64)
        ensures
            final(self)@ == old(self)@.mark(stage, now),
            final(self)@.ordered(),
            final(self).received() == old(self).received(),
    {
        proof {
            use_type_invariant(&*self);
            lemma_mark_keeps_order(self@, stage, now);
        }
        if self.checkpoint(stage).is_some() {
            return ;
        }
        let lo: u64 = match stage {
            Stage::Decoded => 0,
            Stage::Signal => exec_value_or(self.t_decoded, 0),
            Stage::Simulated => exec_value_or(self.t_signal, exec_value_or(self.t_decoded, 0)),
            Stage::Constructed => exec_value_or(
                self.t_simulated,
                exec_value_or(self.t_signal, exec_value_or(self.t_decoded, 0)),
            ),
            Stage::Sent => exec_value_or(
                self.t_constructed,
                exec_value_or(
                    self.t_simulated,
                    exec_value_or(self.t_signal, exec_value_or(self.t_decoded, 0)),
                ),
            ),
        };
        let hi: u64 = match stage {
            Stage::Decoded => exec_value_or(
                self.t_signal,
                exec_value_or(
                    self.t_simulated,
                    exec_value_or(self.t_constructed, exec_value_or(self.t_sent, u64::MAX)),
                ),
            ),
            Stage::Signal => exec_value_or(
                self.t_simulated,
                exec_value_or(self.t_constructed, exec_value_or(self.t_sent, u64::MAX)),
            ),
            Stage::Simulated => exec_value_or(
                self.t_constructed,
                exec_value_or(self.t_sent, u64::MAX),
            ),
            Stage::Constructed => exec_value_or(self.t_sent, u64::MAX),
            Stage::Sent => u64::MAX,
        };
        let t: u64 = if now < lo {
            lo
        } else if now > hi {
            hi
        } else {
            now
        };
        match stage {
            Stage::Decoded => {
                self.t_decoded = Some(t);
            },
            Stage::Signal => {
                self.t_signal = Some(t);
            },
            Stage::Simulated => {
                self.t_simulated = Some(t);
            },
            Stage::Constructed => {
                self.t_constructed = Some(t);
            },
            Stage::Sent => {
                self.t_sent = Some(t);
            },
        }
    }

    /// Marks the event as decoded at the clock's current reading, as `mark_at` does for
    /// that reading.
    pub fn mark_decoded(&mut self)
        ensures
            exists|now: u64| final(self)@ == old(self)@.mark(Stage::Decoded, now),
            final(self)@.ordered(),
            final(self).received() == old(self).received(),
    {
        let now: u64 = self.elapsed_nanos();
        self.mark_at(Stage::Decoded, now);
    }

    /// Marks the signal as detected at the clock's current reading, as `mark_at` does for
    /// that reading.
    pub fn mark_signal(&mut self)
        ensures
            exists|now: u64| final(self)@ == old(self)@.mark(Stage::Signal, now),
            final(self)@.ordered(),
            final(self).received() == old(self).received(),
    {
        let now: u64 = self.elapsed_nanos();
        self.mark_at(Stage::Signal, now);
    }

    /// Marks the simulation as done at the clock's current reading, as `mark_at` does for
    /// that reading.
    pub fn mark_simulated(&mut self)
        ensures
            exists|now: u64| final(self)@ == old(self)@.mark(Stage::Simulated, now),
            final(self)@.ordered(),
            final(self).received() == old(self).received(),
    {
        let now: u64 = self.elapsed_nanos();
        self.mark_at(Stage::Simulated, now);
    }

    /// Marks the transaction as constructed at the clock's current reading, as `mark_at` does for
    /// that reading.
    pub fn mark_constructed(&mut self)
        ensures
            exists|now: u64| final(self)@ == old(self)@.mark(Stage::Constructed, now),
            final(self)@.ordered(),
            final(self).received() == old(self).received(),
    {
        let now: u64 = self.elapsed_nanos();
        self.mark_at(Stage::Constructed, now);
    }

    /// Marks the transaction as sent at the clock's current reading, as `mark_at` does for
    /// that reading.
    pub fn mark_sent(&mut self)
        ensures
            exists|now: u64| final(self)@ == old(self)@.mark(Stage::Sent, now),
            final(self)@.ordered(),
            final(self).received() == old(self).received(),
    {
        let now: u64 = self.elapsed_nanos();
        self.mark_at(Stage::Sent, now);
    }

    /// Nanoseconds from receipt to decoding, where both checkpoints are set.
    pub fn latency_decode(&self) -> (r: Option<u64>)
        ensures
            r == self@.decode(),
    {
        self.t_decoded
    }

    /// Nanoseconds from decoding to signal detection, where both checkpoints are set.
    pub fn latency_signal_detection(&self) -> (r: Option<u64>)
        ensures
            r == self@.signal_detection(),
    {
        exec_span(self.t_decoded, self.t_signal)
    }

    /// Nanoseconds from signal detection to the end of the simulation, where both checkpoints are set.
    pub fn latency_simulation(&self) -> (r: Option<u64>)
        ensures
            r == self@.simulation(),
    {
        exec_span(self.t_signal, self.t_simulated)
    }

    /// Nanoseconds from the end of the simulation to the constructed transaction, where both checkpoints are set.
    pub fn latency_construction(&self) -> (r: Option<u64>)
        ensures
            r == self@.construction(),
    {
        exec_span(self.t_simulated, self.t_constructed)
    }

    /// Nanoseconds from receipt to sending, where both checkpoints are set.
    pub fn latency_end_to_end(&self) -> (r: Option<u64>)
        ensures
            r == self@.end_to_end(),
    {
        self.t_sent
    }

    /// All latencies of the record in whole microseconds, by metric.
    pub fn get_all_latencies(&self) -> (r: LatencyRow)
        ensures
            r == self@.row(),
    {
        LatencyRow {
            decode_us: exec_to_micros(self.latency_decode()),
            signal_detection_us: exec_to_micros(self.latency_signal_detection()),
            simulation_us: exec_to_micros(self.latency_simulation()),
            construction_us: exec_to_micros(self.latency_construction()),
            end_to_end_us: exec_to_micros(self.latency_end_to_end()),
        }
    }
}

impl Default for LatencyMetrics {
    fn default() -> (r: LatencyMetrics)
        ensures
            r@ == Checkpoints::empty(),
    {
        LatencyMetrics::new()
    }
}

/// In a record in pipeline order, a latency is present exactly when both of its
/// checkpoints are, and the stage latencies add up to no more than the time
/// from receipt to sending.
pub proof fn lemma_latencies_present(c: Checkpoints)
    requires
        c.ordered(),
    ensures
        c.decode() is Some <==> c.decoded is Some,
        c.signal_detection() is Some <==> c.decoded is Some && c.signal is Some,
        c.simulation() is Some <==> c.signal is Some && c.simulated is Some,
        c.construction() is Some <==> c.simulated is Some && c.constructed is Some,
        c.end_to_end() is Some <==> c.sent is Some,
        c.decoded is Some && c.signal is Some && c.simulated is Some && c.constructed is Some
            && c.sent is Some ==> c.decode()->0 + c.signal_detection()->0 + c.simulation()->0
            + c.construction()->0 <= c.end_to_end()->0,
{
}

} // verus!
