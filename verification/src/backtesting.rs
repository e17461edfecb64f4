//! The harness that drives events through detection, simulation and latency
//! accounting, one at a time and in their order.

use crate::address::address_of;
use crate::address::Address;
use crate::aggregate::AggregateMetrics;
use crate::amount::Amount;
use crate::liquidation_detector::entries_with;
use crate::liquidation_detector::raises_signal;
use crate::liquidation_detector::tracked_action;
use crate::liquidation_detector::LiquidationDetector;
use crate::liquidation_detector::LiquidationSignal;
use crate::liquidation_detector::LookupError;
use crate::liquidation_detector::TrackedPosition;
use crate::liquidation_detector::UserPosition;
use crate::mempool_streamer::account_to_read;
use crate::mempool_streamer::Transaction;
use crate::metrics::Checkpoints;
use crate::metrics::LatencyMetrics;
use crate::metrics::LatencyRow;
use crate::metrics::Stage;
use crate::simulator::can_estimate;
use crate::simulator::liquidation_pays;
use crate::simulator::LiquidationSimulator;
use crate::simulator::SimulationError;
use crate::simulator::SimulationResult;
use vstd::prelude::*;

verus! {

/// What the chain and the price source answered for one event: the state of
/// the account that the event names, the price of the asset, and the gas
/// estimate and gas price for liquidating that account.
#[derive(Clone, Copy, Debug)]
pub struct ChainAnswers {
    pub position: Result<UserPosition, LookupError>,
    pub price: Option<Amount>,
    pub gas_estimate: Option<Amount>,
    pub gas_price: Option<Amount>,
}

/// One event of a recorded run with the answers that were given for it.
#[derive(Debug)]
pub struct BacktestEvent {
    pub tx: Transaction,
    pub answers: ChainAnswers,
}

/// Whether a simulation ended with a liquidation that pays.
pub open spec fn pays(simulation: Result<SimulationResult, SimulationError>) -> bool {
    simulation is Ok && simulation->Ok_0.profitable
}

/// The latency record of an attempt once it is settled: the simulated stage
/// is marked where the simulation gave a result, and the constructed and sent
/// stages where the result pays.
pub open spec fn settled_record(
    record: Checkpoints,
    simulation: Result<SimulationResult, SimulationError>,
    signal: u64,
    simulated: u64,
    constructed: u64,
    sent: u64,
) -> Checkpoints {
    let marked = record.mark(Stage::Signal, signal);
    if simulation is Err {
        marked
    } else if !simulation->Ok_0.profitable {
        marked.mark(Stage::Simulated, simulated)
    } else {
        marked.mark(Stage::Simulated, simulated).mark(Stage::Constructed, constructed).mark(
            Stage::Sent,
            sent,
        )
    }
}

/// Records the attempt that followed a signal: a success where the simulation
/// says that the liquidation pays, else a failure. The row appended is that of
/// the signal's latency record, settled at the clock's readings.
pub fn settle(
    aggregate: &mut AggregateMetrics,
    signal: &LiquidationSignal,
    simulation: Result<SimulationResult, SimulationError>,
)
    requires
        old(aggregate).wf(),
        old(aggregate).total() < usize::MAX,
    ensures
        final(aggregate).wf(),
        final(aggregate).total() == old(aggregate).total() + 1,
        final(aggregate).successes() == old(aggregate).successes() + if pays(simulation) {
            1nat
        } else {
            0nat
        },
        final(aggregate).failures() == old(aggregate).failures() + if pays(simulation) {
            0nat
        } else {
            1nat
        },
        exists|signal_at: u64, simulated: u64, constructed: u64, sent: u64|
            final(aggregate).rows() == old(aggregate).rows().push(
                #[trigger] settled_record(
                    signal.metrics@,
                    simulation,
                    signal_at,
                    simulated,
                    constructed,
                    sent,
                ).row(),
            ),
{
    let mut metrics: LatencyMetrics = signal.metrics;
    metrics.mark_signal();
    let ghost after_signal = metrics@;
    let ghost signal_at = choose|now: u64| after_signal == signal.metrics@.mark(Stage::Signal, now);
    match simulation {
        Ok(result) => {
            metrics.mark_simulated();
            let ghost after_simulated = metrics@;
            let ghost simulated = choose|now: u64|
                after_simulated == after_signal.mark(Stage::Simulated, now);
            if result.profitable {
                metrics.mark_constructed();
                let ghost after_constructed = metrics@;
                let ghost constructed = choose|now: u64|
                    after_constructed == after_simulated.mark(Stage::Constructed, now);
                metrics.mark_sent();
                let ghost sent = choose|now: u64|
                    metrics@ == after_constructed.mark(Stage::Sent, now);
                aggregate.record_attempt(&metrics, true);
                assert(metrics@ == settled_record(
                    signal.metrics@,
                    simulation,
                    signal_at,
                    simulated,
                    constructed,
                    sent,
                ));
            } else {
                aggregate.record_attempt(&metrics, false);
                assert(metrics@ == settled_record(
                    signal.metrics@,
                    simulation,
                    signal_at,
                    simulated,
                    0,
                    0,
                ));
            }
        },
        Err(_) => {
            aggregate.record_attempt(&metrics, false);
            assert(metrics@ == settled_record(signal.metrics@, simulation, signal_at, 0, 0, 0));
        },
    }
}

/// The latencies that the row of an attempt holds, by how far the attempt got:
/// decoding and signal detection always, the simulation where an estimate was
/// made, and construction and the time from receipt to sending where the
/// liquidation pays.
pub open spec fn row_of_attempt(row: LatencyRow, estimated: bool, paying: bool) -> bool {
    &&& row.decode_us is Some
    &&& row.signal_detection_us is Some
    &&& row.simulation_us is Some <==> estimated
    &&& row.construction_us is Some <==> paying
    &&& row.end_to_end_us is Some <==> paying
}

/// Whether an event leads to a signal, given the answers for it: it is sent to
/// the protocol, its call data is recognised and is no liquidation, and the
/// position read for the account that it names can be liquidated.
pub open spec fn gives_signal(tx: Transaction, protocol_address: Address, answers: ChainAnswers) -> bool {
    match (tracked_action(tx, protocol_address), answers.position) {
        (Some(kind), Ok(p)) => raises_signal(kind, p),
        _ => false,
    }
}

/// Whether an event leads to an attempt that is recorded as a success: it
/// gives a signal, and the simulation says that liquidating the position pays.
pub open spec fn gives_success(
    min_profit: nat,
    tx: Transaction,
    protocol_address: Address,
    answers: ChainAnswers,
) -> bool {
    gives_signal(tx, protocol_address, answers) && liquidation_pays(
        min_profit,
        answers.position->Ok_0.debt@,
        answers.price,
        answers.gas_estimate,
        answers.gas_price,
    )
}

/// The number of events that give a signal.
pub open spec fn signals_among(events: Seq<BacktestEvent>, protocol_address: Address) -> nat
    decreases events.len(),
{
    if events.len() == 0 {
        0
    } else {
        signals_among(events.drop_last(), protocol_address) + if gives_signal(
            events.last().tx,
            protocol_address,
            events.last().answers,
        ) {
            1nat
        } else {
            0nat
        }
    }
}

/// The number of events that give a success.
pub open spec fn successes_among(
    min_profit: nat,
    events: Seq<BacktestEvent>,
    protocol_address: Address,
) -> nat
    decreases events.len(),
{
    if events.len() == 0 {
        0
    } else {
        successes_among(min_profit, events.drop_last(), protocol_address) + if gives_success(
            min_profit,
            events.last().tx,
            protocol_address,
            events.last().answers,
        ) {
            1nat
        } else {
            0nat
        }
    }
}

/// How far the attempt of an event got, for an event that gives a signal:
/// whether an estimate was made, and whether the liquidation pays.
pub open spec fn attempt_of(min_profit: nat, tx: Transaction, protocol_address: Address, answers: ChainAnswers) -> (bool, bool) {
    (
        can_estimate(
            answers.position->Ok_0.debt@,
            answers.price,
            answers.gas_estimate,
            answers.gas_price,
        ),
        gives_success(min_profit, tx, protocol_address, answers),
    )
}

/// The attempts of the events that give a signal, in the events' order.
pub open spec fn attempts_among(
    min_profit: nat,
    events: Seq<BacktestEvent>,
    protocol_address: Address,
) -> Seq<(bool, bool)>
    decreases events.len(),
{
    if events.len() == 0 {
        Seq::empty()
    } else {
        let before = attempts_among(min_profit, events.drop_last(), protocol_address);
        if gives_signal(events.last().tx, protocol_address, events.last().answers) {
            before.push(
                attempt_of(min_profit, events.last().tx, protocol_address, events.last().answers),
            )
        } else {
            before
        }
    }
}

/// The entries of the table after one event: the position read for the
/// account that a followed-up event names is written, and nothing else
/// changes.
pub open spec fn entries_after_event(
    entries: Seq<TrackedPosition>,
    tx: Transaction,
    protocol_address: Address,
    answers: ChainAnswers,
) -> Seq<TrackedPosition> {
    match (tracked_action(tx, protocol_address), answers.position) {
        (Some(kind), Ok(p)) => entries_with(entries, address_of(account_to_read(tx, kind)), p),
        _ => entries,
    }
}

/// The entries of the table after the events, taken in their order.
pub open spec fn entries_after(
    entries: Seq<TrackedPosition>,
    events: Seq<BacktestEvent>,
    protocol_address: Address,
) -> Seq<TrackedPosition>
    decreases events.len(),
{
    if events.len() == 0 {
        entries
    } else {
        entries_after_event(
            entries_after(entries, events.drop_last(), protocol_address),
            events.last().tx,
            protocol_address,
            events.last().answers,
        )
    }
}

/// No more events give a signal than there are events, and no more give a
/// success than give a signal.
pub proof fn lemma_signals_bounded(
    min_profit: nat,
    events: Seq<BacktestEvent>,
    protocol_address: Address,
)
    ensures
        successes_among(min_profit, events, protocol_address) <= signals_among(
            events,
            protocol_address,
        ) <= events.len(),
    decreases events.len(),
{
    if events.len() > 0 {
        lemma_signals_bounded(min_profit, events.drop_last(), protocol_address);
    }
}

/// What a run over recorded events gives: the statistics of its attempts, the
/// number of events it took, and the number of signals among them.
#[derive(Debug)]
pub struct BacktestOutcome {
    pub metrics: AggregateMetrics,
    pub processed: usize,
    pub liquidations_found: usize,
}

/// Drives events through the detector and the simulator and keeps the
/// statistics of the attempts.
pub struct BacktestEngine {
    pub detector: LiquidationDetector,
    pub simulator: LiquidationSimulator,
    pub protocol_address: Address,
}

impl BacktestEngine {
    /// An engine over the given detector and simulator, for the protocol at
    /// the given address.
    pub fn new(
        detector: LiquidationDetector,
        simulator: LiquidationSimulator,
        protocol_address: Address,
    ) -> (r: BacktestEngine)
        ensures
            r.detector == detector,
            r.simulator == simulator,
            r.protocol_address == protocol_address,
    {
        BacktestEngine { detector, simulator, protocol_address }
    }

    /// Takes one event with its answers through detection and, where it gives
    /// a signal, through simulation, and records the attempt. Says whether the
    /// event gave a signal.
    pub fn process_event(
        &mut self,
        aggregate: &mut AggregateMetrics,
        tx: &Transaction,
        answers: &ChainAnswers,
    ) -> (found: bool)
        requires
            old(self).detector.wf(),
            old(aggregate).wf(),
            old(aggregate).total() < usize::MAX,
        ensures
            final(self).detector.wf(),
            final(self).simulator == old(self).simulator,
            final(self).protocol_address == old(self).protocol_address,
            match (tracked_action(*tx, old(self).protocol_address), answers.position) {
                (Some(kind), Ok(p)) => {
                    &&& final(self).detector@ == old(self).detector@.insert(
                        account_to_read(*tx, kind),
                        p,
                    )
                    &&& final(self).detector.entries() == entries_with(
                        old(self).detector.entries(),
                        address_of(account_to_read(*tx, kind)),
                        p,
                    )
                },
                _ => final(self).detector.entries() == old(self).detector.entries(),
            },
            found == gives_signal(*tx, old(self).protocol_address, *answers),
            final(aggregate).wf(),
            final(aggregate).total() == old(aggregate).total() + if found {
                1nat
            } else {
                0nat
            },
            final(aggregate).successes() == old(aggregate).successes() + if gives_success(
                old(self).simulator.min_profit_threshold@,
                *tx,
                old(self).protocol_address,
                *answers,
            ) {
                1nat
            } else {
                0nat
            },
            !found ==> final(aggregate).rows() == old(aggregate).rows(),
            found ==> {
                &&& final(aggregate).rows().len() == old(aggregate).rows().len() + 1
                &&& final(aggregate).rows().drop_last() == old(aggregate).rows()
                &&& row_of_attempt(
                    final(aggregate).rows().last(),
                    can_estimate(
                        answers.position->Ok_0.debt@,
                        answers.price,
                        answers.gas_estimate,
                        answers.gas_price,
                    ),
                    gives_success(
                        old(self).simulator.min_profit_threshold@,
                        *tx,
                        old(self).protocol_address,
                        *answers,
                    ),
                )
            },
    {
        match self.detector.process_transaction(tx, self.protocol_address, answers.position) {
            Some(signal) => {
                let simulation = self.simulator.simulate_liquidation(
                    &signal,
                    answers.price,
                    answers.gas_estimate,
                    answers.gas_price,
                );
                settle(aggregate, &signal, simulation);
                assert(aggregate.rows().drop_last() =~= old(aggregate).rows());
                assert(signal.metrics@.decoded is Some && signal.metrics@.signal is Some);
                true
            },
            None => false,
        }
    }

    /// Takes the recorded events in their order, each through `process_event`,
    /// starting from statistics of no attempts. Every event is counted as
    /// processed; those that gave a signal are the attempts.
    pub fn run_backtest(&mut self, events: &Vec<BacktestEvent>) -> (r: BacktestOutcome)
        requires
            old(self).detector.wf(),
        ensures
            final(self).detector.wf(),
            final(self).simulator == old(self).simulator,
            final(self).protocol_address == old(self).protocol_address,
            r.metrics.wf(),
            r.processed == events@.len(),
            r.liquidations_found == signals_among(events@, old(self).protocol_address),
            r.metrics.total() == r.liquidations_found,
            r.metrics.total() + (r.processed - r.liquidations_found) == events@.len(),
            r.metrics.successes() == successes_among(
                old(self).simulator.min_profit_threshold@,
                events@,
                old(self).protocol_address,
            ),
            final(self).detector.entries() == entries_after(
                old(self).detector.entries(),
                events@,
                old(self).protocol_address,
            ),
            r.metrics.rows().len() == attempts_among(
                old(self).simulator.min_profit_threshold@,
                events@,
                old(self).protocol_address,
            ).len(),
            forall|k: int|
                0 <= k < r.metrics.rows().len() ==> row_of_attempt(
                    #[trigger] r.metrics.rows()[k],
                    attempts_among(
                        old(self).simulator.min_profit_threshold@,
                        events@,
                        old(self).protocol_address,
                    )[k].0,
                    attempts_among(
                        old(self).simulator.min_profit_threshold@,
                        events@,
                        old(self).protocol_address,
                    )[k].1,
                ),
    {
        let mut aggregate = AggregateMetrics::new();
        let mut found: usize = 0;
        let mut i: usize = 0;
        assert(events@.take(0) =~= Seq::<BacktestEvent>::empty());
        while i < events.len()
            invariant
                i <= events.len(),
                self.detector.wf(),
                self.simulator == old(self).simulator,
                self.protocol_address == old(self).protocol_address,
                aggregate.wf(),
                found <= i,
                found == signals_among(events@.take(i as int), self.protocol_address),
                aggregate.total() == found,
                aggregate.successes() == successes_among(
                    self.simulator.min_profit_threshold@,
                    events@.take(i as int),
                    self.protocol_address,
                ),
                self.detector.entries() == entries_after(
                    old(self).detector.entries(),
                    events@.take(i as int),
                    self.protocol_address,
                ),
                aggregate.rows().len() == attempts_among(
                    self.simulator.min_profit_threshold@,
                    events@.take(i as int),
                    self.protocol_address,
                ).len(),
                forall|k: int|
                    0 <= k < aggregate.rows().len() ==> row_of_attempt(
                        #[trigger] aggregate.rows()[k],
                        attempts_among(
                            self.simulator.min_profit_threshold@,
                            events@.take(i as int),
                            self.protocol_address,
                        )[k].0,
                        attempts_among(
                            self.simulator.min_profit_threshold@,
                            events@.take(i as int),
                            self.protocol_address,
                        )[k].1,
                    ),
            decreases events.len() - i,
        {
            assert(events@.take(i as int + 1).drop_last() =~= events@.take(i as int));
            let ghost rows_before = aggregate.rows();
            let ghost attempts_before = attempts_among(
                self.simulator.min_profit_threshold@,
                events@.take(i as int),
                self.protocol_address,
            );
            let ghost attempts_after = attempts_among(
                self.simulator.min_profit_threshold@,
                events@.take(i as int + 1),
                self.protocol_address,
            );
            assert(events@.take(i as int + 1).last() == events@[i as int]);
            if self.process_event(&mut aggregate, &events[i].tx, &events[i].answers) {
                found = found + 1;
                assert(attempts_after == attempts_before.push(
                    attempt_of(
                        self.simulator.min_profit_threshold@,
                        events@[i as int].tx,
                        self.protocol_address,
                        events@[i as int].answers,
                    ),
                ));
                assert forall|k: int| 0 <= k < aggregate.rows().len() implies row_of_attempt(
                    #[trigger] aggregate.rows()[k],
                    attempts_after[k].0,
                    attempts_after[k].1,
                ) by {
                    if k < rows_before.len() {
                        assert(aggregate.rows().drop_last()[k] == rows_before[k]);
                        assert(attempts_after[k] == attempts_before[k]);
                    } else {
                        assert(aggregate.rows()[k] == aggregate.rows().last());
                    }
                }
            } else {
                assert(attempts_after == attempts_before);
            }
            i += 1;
        }
        assert(events@.take(i as int) =~= events@);
        BacktestOutcome { metrics: aggregate, processed: i, liquidations_found: found }
    }

    /// The signal of one round of the stress test: the made-up position of
    /// `test_user`, with a latency record opened for the round and the decoded
    /// and the signal stage marked, so that what follows counts as simulation.
    pub fn stress_signal(test_user: Address) -> (r: LiquidationSignal)
        ensures
            r.user == test_user,
            r.collateral@ == STRESS_COLLATERAL,
            r.debt@ == STRESS_DEBT,
            r.health_factor@ == STRESS_HEALTH_FACTOR,
            r.metrics@.ordered(),
            exists|decoded: u64, signal: u64|
                r.metrics@ == Checkpoints::empty().mark(Stage::Decoded, decoded).mark(
                    Stage::Signal,
                    signal,
                ),
    {
        let mut metrics = LatencyMetrics::new();
        metrics.mark_decoded();
        let ghost after_decoded = metrics@;
        metrics.mark_signal();
        proof {
            let decoded = choose|now: u64|
                after_decoded == Checkpoints::empty().mark(Stage::Decoded, now);
            let signal = choose|now: u64| metrics@ == after_decoded.mark(Stage::Signal, now);
            assert(metrics@ == Checkpoints::empty().mark(Stage::Decoded, decoded).mark(
                Stage::Signal,
                signal,
            ));
        }
        LiquidationSignal {
            user: test_user,
            collateral: Amount::from_u128(STRESS_COLLATERAL),
            debt: Amount::from_u128(STRESS_DEBT),
            health_factor: Amount::from_u64(STRESS_HEALTH_FACTOR),
            metrics,
        }
    }

    /// Runs the simulator and the latency accounting `iterations` times on one
    /// made-up position that can be liquidated: 5 units of collateral, a debt
    /// of 8000 dollars and a health factor of 80 percent. The answers of the
    /// chain are the same in every round, so every round ends alike: each is a
    /// success where the simulation says that the liquidation pays, each a
    /// failure where it does not.
    pub fn run_latency_stress_test(
        &self,
        iterations: usize,
        test_user: Address,
        price: Option<Amount>,
        gas_estimate: Option<Amount>,
        gas_price: Option<Amount>,
    ) -> (r: AggregateMetrics)
        ensures
            r.wf(),
            r.total() == iterations,
            r.successes() == if liquidation_pays(
                self.simulator.min_profit_threshold@,
                STRESS_DEBT as nat,
                price,
                gas_estimate,
                gas_price,
            ) {
                iterations as nat
            } else {
                0nat
            },
            forall|k: int|
                0 <= k < r.rows().len() ==> row_of_attempt(
                    #[trigger] r.rows()[k],
                    can_estimate(STRESS_DEBT as nat, price, gas_estimate, gas_price),
                    liquidation_pays(
                        self.simulator.min_profit_threshold@,
                        STRESS_DEBT as nat,
                        price,
                        gas_estimate,
                        gas_price,
                    ),
                ),
    {
        let mut aggregate = AggregateMetrics::new();
        let mut i: usize = 0;
        while i < iterations
            invariant
                i <= iterations,
                aggregate.wf(),
                aggregate.total() == i,
                aggregate.successes() == if liquidation_pays(
                    self.simulator.min_profit_threshold@,
                    STRESS_DEBT as nat,
                    price,
                    gas_estimate,
                    gas_price,
                ) {
                    i as nat
                } else {
                    0nat
                },
                forall|k: int|
                    0 <= k < aggregate.rows().len() ==> row_of_attempt(
                        #[trigger] aggregate.rows()[k],
                        can_estimate(STRESS_DEBT as nat, price, gas_estimate, gas_price),
                        liquidation_pays(
                            self.simulator.min_profit_threshold@,
                            STRESS_DEBT as nat,
                            price,
                            gas_estimate,
                            gas_price,
                        ),
                    ),
            decreases iterations - i,
        {
            let signal = Self::stress_signal(test_user);
            let simulation = self.simulator.simulate_liquidation(
                &signal,
                price,
                gas_estimate,
                gas_price,
            );
            assert(signal.metrics@.decoded is Some);
            settle(&mut aggregate, &signal, simulation);
            i += 1;
        }
        aggregate
    }
}

/// The collateral of the stress test's position: 5 units of the asset.
pub const STRESS_COLLATERAL: u128 = 5_000_000_000_000_000_000;

/// The debt of the stress test's position: 8000 dollars.
pub const STRESS_DEBT: u128 = 8_000_000_000_000_000_000_000;

/// The health factor of the stress test's position, in percent.
pub const STRESS_HEALTH_FACTOR: u64 = 80;

} // verus!
