//! The table of tracked positions and the detection of positions that have
//! fallen below the liquidation threshold.

use crate::address::address_of;
use crate::address::lemma_address_by_bytes;
use crate::address::Address;
use crate::amount::Amount;
use crate::mempool_streamer::account_to_read;
use crate::mempool_streamer::classify;
use crate::mempool_streamer::Transaction;
use crate::mempool_streamer::TransactionClassifier;
use crate::mempool_streamer::TransactionType;
use crate::metrics::Checkpoints;
use crate::metrics::LatencyMetrics;
use crate::metrics::Stage;
use vstd::prelude::*;

verus! {

/// A position with a health factor below this, in percent, can be liquidated.
pub const LIQUIDATION_THRESHOLD: u64 = 100;

/// The last known state of one account: collateral and debt as 256-bit
/// fixed-point amounts, the health factor in percent, and the unix time of the
/// reading in seconds.
#[derive(Clone, Copy, Debug, PartialEq, Eq, Structural)]
pub struct UserPosition {
    pub collateral: Amount,
    pub debt: Amount,
    pub health_factor: Amount,
    pub last_updated: u64,
}

/// Whether a position can be liquidated: its health factor is below the
/// threshold and it has debt.
pub open spec fn liquidatable(p: UserPosition) -> bool {
    p.health_factor@ < LIQUIDATION_THRESHOLD && p.debt@ > 0
}

impl UserPosition {
    /// Whether the position can be liquidated.
    pub fn is_liquidatable(&self) -> (r: bool)
        ensures
            r == liquidatable(*self),
    {
        self.health_factor.lt(&Amount::from_u64(LIQUIDATION_THRESHOLD)) && !self.debt.is_zero()
    }
}

impl Default for UserPosition {
    fn default() -> (r: UserPosition)
        ensures
            r.collateral@ == 0,
            r.debt@ == 0,
            r.health_factor@ == 0,
            r.last_updated == 0,
    {
        UserPosition {
            collateral: Amount::zero(),
            debt: Amount::zero(),
            health_factor: Amount::zero(),
            last_updated: 0,
        }
    }
}

/// Why the state of an account could not be read.
#[derive(Clone, Copy, Debug, PartialEq, Eq, Structural)]
pub enum LookupError {
    /// The node could not be reached or did not answer.
    Unavailable,
    /// The node answered, but the call was rejected or its answer could not be
    /// read.
    Rejected,
}

/// One account of the table with its position.
#[derive(Clone, Copy, Debug, PartialEq, Eq)]
pub struct TrackedPosition {
    pub user: Address,
    pub position: UserPosition,
}

/// The accounts of the entries, in the entries' order.
pub open spec fn accounts_of(entries: Seq<TrackedPosition>) -> Seq<Seq<u8>> {
    entries.map_values(|e: TrackedPosition| e.user@)
}

/// The table that the entries stand for: each account with its position.
pub open spec fn table_of(entries: Seq<TrackedPosition>) -> Map<Seq<u8>, UserPosition> {
    Map::new(
        |k: Seq<u8>| accounts_of(entries).contains(k),
        |k: Seq<u8>| entries[accounts_of(entries).index_of(k)].position,
    )
}

/// The entries once a position is written for an account: the account's entry
/// is replaced where it stands, and a new account is put last.
pub open spec fn entries_with(entries: Seq<TrackedPosition>, user: Address, p: UserPosition) -> Seq<
    TrackedPosition,
> {
    let entry = TrackedPosition { user, position: p };
    if accounts_of(entries).contains(user@) {
        entries.update(accounts_of(entries).index_of(user@), entry)
    } else {
        entries.push(entry)
    }
}

/// The position that a table holds for an account, if it holds one.
pub open spec fn position_in(table: Map<Seq<u8>, UserPosition>, account: Seq<u8>) -> Option<
    UserPosition,
> {
    if table.dom().contains(account) {
        Some(table[account])
    } else {
        None
    }
}

/// Once a position is written for an account, the table holds exactly that
/// position for the account, all four fields, and every other account is as it
/// was.
pub proof fn lemma_position_after_refresh(
    table: Map<Seq<u8>, UserPosition>,
    account: Seq<u8>,
    position: UserPosition,
    other: Seq<u8>,
)
    ensures
        position_in(table.insert(account, position), account) == Some(position),
        other != account ==> position_in(table.insert(account, position), other) == position_in(
            table,
            other,
        ),
{
}

proof fn lemma_table_entry(entries: Seq<TrackedPosition>, i: int)
    requires
        accounts_of(entries).no_duplicates(),
        0 <= i < entries.len(),
    ensures
        table_of(entries).dom().contains(entries[i].user@),
        table_of(entries)[entries[i].user@] == entries[i].position,
{
    let keys = accounts_of(entries);
    assert(keys[i] == entries[i].user@);
    let j = keys.index_of(entries[i].user@);
    assert(0 <= j < keys.len() && keys[j] == entries[i].user@);
    assert(j == i);
}

proof fn lemma_table_push(entries: Seq<TrackedPosition>, e: TrackedPosition)
    requires
        accounts_of(entries).no_duplicates(),
        !accounts_of(entries).contains(e.user@),
    ensures
        accounts_of(entries.push(e)).no_duplicates(),
        table_of(entries.push(e)) == table_of(entries).insert(e.user@, e.position),
{
    let after = entries.push(e);
    let keys = accounts_of(entries);
    let keys_after = accounts_of(after);
    assert(keys_after =~= keys.push(e.user@));
    assert forall|i: int, j: int|
        0 <= i < keys_after.len() && 0 <= j < keys_after.len() && i != j implies keys_after[i]
        != keys_after[j] by {
        if i < keys.len() {
            assert(keys[i] == keys_after[i]);
        }
        if j < keys.len() {
            assert(keys[j] == keys_after[j]);
        }
    }
    let lhs = table_of(after);
    let rhs = table_of(entries).insert(e.user@, e.position);
    assert forall|k: Seq<u8>| lhs.dom().contains(k) <==> rhs.dom().contains(k) by {
        if keys_after.contains(k) {
            let i = keys_after.index_of(k);
            if i < keys.len() {
                assert(keys[i] == k);
            }
        }
        if keys.contains(k) {
            let i = keys.index_of(k);
            assert(keys_after[i] == k);
        }
        if k == e.user@ {
            assert(keys_after[entries.len() as int] == k);
        }
    }
    assert forall|k: Seq<u8>| lhs.dom().contains(k) implies lhs[k] == rhs[k] by {
        let i = keys_after.index_of(k);
        lemma_table_entry(after, i);
        if i < keys.len() {
            assert(keys[i] == k);
            lemma_table_entry(entries, i);
        }
    }
    assert(lhs =~= rhs);
}

proof fn lemma_table_update(entries: Seq<TrackedPosition>, i: int, e: TrackedPosition)
    requires
        accounts_of(entries).no_duplicates(),
        0 <= i < entries.len(),
        entries[i].user@ == e.user@,
    ensures
        accounts_of(entries.update(i, e)) == accounts_of(entries),
        table_of(entries.update(i, e)) == table_of(entries).insert(e.user@, e.position),
{
    let after = entries.update(i, e);
    let keys = accounts_of(entries);
    assert(accounts_of(after) =~= keys);
    let lhs = table_of(after);
    let rhs = table_of(entries).insert(e.user@, e.position);
    assert(keys[i] == e.user@);
    assert forall|k: Seq<u8>| lhs.dom().contains(k) <==> rhs.dom().contains(k) by {
    }
    assert forall|k: Seq<u8>| lhs.dom().contains(k) implies lhs[k] == rhs[k] by {
        let j = keys.index_of(k);
        lemma_table_entry(after, j);
        lemma_table_entry(entries, j);
    }
    assert(lhs =~= rhs);
}

/// A detected opportunity: the account and the position that was read for it,
/// with the latency record of the event that led to it.
#[derive(Clone, Copy, Debug)]
pub struct LiquidationSignal {
    pub user: Address,
    pub collateral: Amount,
    pub debt: Amount,
    pub health_factor: Amount,
    pub metrics: LatencyMetrics,
}

/// The signal names the account and carries the position's collateral, debt
/// and health factor.
pub open spec fn signal_carries(s: LiquidationSignal, user: Address, p: UserPosition) -> bool {
    &&& s.user == user
    &&& s.collateral == p.collateral
    &&& s.debt == p.debt
    &&& s.health_factor == p.health_factor
}

/// Whether the transaction is sent to the protocol.
pub open spec fn is_target(tx: Transaction, protocol_address: Address) -> bool {
    tx.to is Some && tx.to->0@ == protocol_address@
}

/// The action of a transaction that the detector follows up: that of a
/// transaction sent to the protocol whose call data is recognised.
pub open spec fn tracked_action(tx: Transaction, protocol_address: Address) -> Option<
    TransactionType,
> {
    if is_target(tx, protocol_address) {
        classify(tx.input@)
    } else {
        None
    }
}

/// Whether an event with this action leads to a signal when this position is
/// read for the account that it names: a liquidation by another actor never
/// does.
pub open spec fn raises_signal(kind: TransactionType, p: UserPosition) -> bool {
    kind != TransactionType::Liquidate && liquidatable(p)
}

/// An event that was decoded and waits for the state of the account that it
/// names to be read.
#[derive(Clone, Copy, Debug)]
pub struct PendingCheck {
    pub user: Address,
    pub kind: TransactionType,
    pub metrics: LatencyMetrics,
}

/// Follows the positions of the accounts that act on the protocol and detects
/// those that can be liquidated. Every detector that `new` made and the
/// methods changed holds no account twice (`wf`).
pub struct LiquidationDetector {
    positions: Vec<TrackedPosition>,
}

impl View for LiquidationDetector {
    type V = Map<Seq<u8>, UserPosition>;

    open spec fn view(&self) -> Map<Seq<u8>, UserPosition> {
        table_of(self.entries())
    }
}

impl LiquidationDetector {
    /// The tracked accounts with their positions, in the order in which the
    /// accounts were first seen.
    pub closed spec fn entries(&self) -> Seq<TrackedPosition> {
        self.positions@
    }

    /// No account is held twice.
    pub open spec fn wf(&self) -> bool {
        accounts_of(self.entries()).no_duplicates()
    }

    /// A detector that tracks no account.
    pub fn new() -> (r: LiquidationDetector)
        ensures
            r.entries().len() == 0,
            r@ == Map::<Seq<u8>, UserPosition>::empty(),
            r.wf(),
    {
        let r = LiquidationDetector { positions: Vec::new() };
        assert(r@ =~= Map::<Seq<u8>, UserPosition>::empty());
        r
    }

    fn find(&self, user: &Address) -> (r: Option<usize>)
        ensures
            match r {
                Some(i) => i < self.entries().len() && self.entries()[i as int].user@ == user@,
                None => !accounts_of(self.entries()).contains(user@),
            },
    {
        let mut i: usize = 0;
        while i < self.positions.len()
            invariant
                i <= self.positions.len(),
                forall|j: int| 0 <= j < i ==> self.positions@[j].user@ != user@,
            decreases self.positions.len() - i,
        {
            if self.positions[i].user.same(user) {
                return Some(i);
            }
            i += 1;
        }
        None
    }

    /// The position last read for the account, if the account is tracked.
    pub fn get_position(&self, user: Address) -> (r: Option<UserPosition>)
        requires
            self.wf(),
        ensures
            r == position_in(self@, user@),
    {
        match self.find(&user) {
            Some(i) => {
                proof {
                    lemma_table_entry(self.entries(), i as int);
                }
                Some(self.positions[i].position)
            },
            None => None,
        }
    }

    /// Takes the outcome of reading an account's state. A position that was
    /// read replaces, whole, what the table held for the account; a failed
    /// reading leaves the table as it was and is handed back.
    pub fn update_position(&mut self, user: Address, lookup: Result<UserPosition, LookupError>) -> (r:
        Result<(), LookupError>)
        requires
            old(self).wf(),
        ensures
            final(self).wf(),
            match lookup {
                Ok(p) => {
                    &&& r is Ok
                    &&& final(self)@ == old(self)@.insert(user@, p)
                    &&& final(self).entries() == entries_with(old(self).entries(), user, p)
                },
                Err(e) => r == Err::<(), LookupError>(e) && final(self).entries() == old(
                    self,
                ).entries(),
            },
    {
        match lookup {
            Ok(p) => {
                let entry = TrackedPosition { user, position: p };
                match self.find(&user) {
                    Some(i) => {
                        proof {
                            lemma_table_update(self.entries(), i as int, entry);
                            let accounts = accounts_of(self.entries());
                            assert(accounts[i as int] == user@);
                            assert(accounts.index_of(user@) == i);
                        }
                        self.positions.set(i, entry);
                    },
                    None => {
                        proof {
                            lemma_table_push(self.entries(), entry);
                        }
                        self.positions.push(entry);
                    },
                }
                Ok(())
            },
            Err(e) => Err(e),
        }
    }

    /// Looks at the tracked position of an account. Where it can be
    /// liquidated, the signal stage is marked in `metrics` and a signal with
    /// the position and the marked record is returned.
    pub fn check_liquidation(&self, user: Address, metrics: &mut LatencyMetrics) -> (r: Option<
        LiquidationSignal,
    >)
        requires
            self.wf(),
        ensures
            final(metrics)@.ordered(),
            final(metrics).received() == old(metrics).received(),
            match position_in(self@, user@) {
                Some(p) => if liquidatable(p) {
                    &&& r is Some
                    &&& signal_carries(r->0, user, p)
                    &&& r->0.metrics == *final(metrics)
                    &&& exists|now: u64| final(metrics)@ == old(metrics)@.mark(Stage::Signal, now)
                } else {
                    r is None && *final(metrics) == *old(metrics)
                },
                None => r is None && *final(metrics) == *old(metrics),
            },
    {
        proof {
            use_type_invariant(&*metrics);
        }
        match self.get_position(user) {
            Some(p) => {
                if p.is_liquidatable() {
                    metrics.mark_signal();
                    Some(
                        LiquidationSignal {
                            user,
                            collateral: p.collateral,
                            debt: p.debt,
                            health_factor: p.health_factor,
                            metrics: *metrics,
                        },
                    )
                } else {
                    None
                }
            },
            None => None,
        }
    }

    /// The number of tracked accounts.
    pub fn get_position_count(&self) -> (r: usize)
        requires
            self.wf(),
        ensures
            r == self.entries().len(),
            r == self@.dom().len(),
    {
        proof {
            accounts_of(self.entries()).unique_seq_to_set();
            assert(self@.dom() =~= accounts_of(self.entries()).to_set());
        }
        self.positions.len()
    }

    /// Forgets every tracked account.
    pub fn clear_positions(&mut self)
        ensures
            final(self).entries().len() == 0,
            final(self)@ == Map::<Seq<u8>, UserPosition>::empty(),
            final(self).wf(),
    {
        self.positions.clear();
        assert(self@ =~= Map::<Seq<u8>, UserPosition>::empty());
    }

    /// Decodes an event. An event that is not sent to the protocol, or whose
    /// call data is not recognised, is dropped at once. For any other the
    /// result names the account whose state is to be read, and carries a
    /// latency record opened on entry with the decoded stage marked.
    pub fn begin_transaction(tx: &Transaction, protocol_address: Address) -> (r: Option<
        PendingCheck,
    >)
        ensures
            match r {
                Some(pending) => {
                    &&& tracked_action(*tx, protocol_address) == Some(pending.kind)
                    &&& pending.user@ == account_to_read(*tx, pending.kind)
                    &&& pending.metrics@.ordered()
                    &&& exists|now: u64|
                        pending.metrics@ == Checkpoints::empty().mark(Stage::Decoded, now)
                },
                None => tracked_action(*tx, protocol_address) is None,
            },
    {
        let mut metrics = LatencyMetrics::new();
        if !TransactionClassifier::is_protocol_transaction(tx, protocol_address) {
            return None;
        }
        match TransactionClassifier::classify_transaction(tx) {
            Some(kind) => {
                metrics.mark_decoded();
                Some(
                    PendingCheck {
                        user: TransactionClassifier::extract_tracked_address(tx, kind),
                        kind,
                        metrics,
                    },
                )
            },
            None => None,
        }
    }

    /// Takes the outcome of reading the state of the account that a decoded
    /// event named. A failed reading changes nothing and gives no signal. A position that was
    /// read replaces what the table held for the account; it gives a signal
    /// exactly when it can be liquidated and the event is not itself a
    /// liquidation. The signal carries the position that was read and the
    /// event's latency record with the signal stage marked.
    pub fn finish_transaction(
        &mut self,
        pending: PendingCheck,
        lookup: Result<UserPosition, LookupError>,
    ) -> (r: Option<LiquidationSignal>)
        requires
            old(self).wf(),
        ensures
            final(self).wf(),
            match lookup {
                Ok(p) => {
                    &&& final(self)@ == old(self)@.insert(pending.user@, p)
                    &&& final(self).entries() == entries_with(
                        old(self).entries(),
                        pending.user,
                        p,
                    )
                    &&& r is Some <==> raises_signal(pending.kind, p)
                    &&& r is Some ==> {
                        &&& signal_carries(r->0, pending.user, p)
                        &&& r->0.metrics@.ordered()
                        &&& exists|now: u64|
                            r->0.metrics@ == pending.metrics@.mark(Stage::Signal, now)
                    }
                },
                Err(_) => r is None && final(self).entries() == old(self).entries(),
            },
    {
        let mut metrics = pending.metrics;
        match self.update_position(pending.user, lookup) {
            Ok(()) => {
                proof {
                    lemma_position_after_refresh(
                        old(self)@,
                        pending.user@,
                        lookup->Ok_0,
                        pending.user@,
                    );
                }
                match pending.kind {
                    TransactionType::Liquidate => None,
                    _ => self.check_liquidation(pending.user, &mut metrics),
                }
            },
            Err(_) => None,
        }
    }

    /// Takes one event together with the outcome of reading the state of the
    /// account that it names (`account_to_read`): `begin_transaction`, then, for an event that was not dropped,
    /// `finish_transaction`.
    pub fn process_transaction(
        &mut self,
        tx: &Transaction,
        protocol_address: Address,
        lookup: Result<UserPosition, LookupError>,
    ) -> (r: Option<LiquidationSignal>)
        requires
            old(self).wf(),
        ensures
            final(self).wf(),
            match (tracked_action(*tx, protocol_address), lookup) {
                (Some(kind), Ok(p)) => {
                    &&& final(self)@ == old(self)@.insert(account_to_read(*tx, kind), p)
                    &&& final(self).entries() == entries_with(
                        old(self).entries(),
                        address_of(account_to_read(*tx, kind)),
                        p,
                    )
                    &&& r is Some <==> raises_signal(kind, p)
                    &&& r is Some ==> {
                        &&& signal_carries(r->0, tx.from, p)
                        &&& r->0.metrics@.ordered()
                        &&& exists|decoded: u64, signal: u64|
                            r->0.metrics@ == Checkpoints::empty().mark(
                                Stage::Decoded,
                                decoded,
                            ).mark(Stage::Signal, signal)
                    }
                },
                _ => r is None && final(self).entries() == old(self).entries(),
            },
    {
        match Self::begin_transaction(tx, protocol_address) {
            Some(pending) => {
                let r = self.finish_transaction(pending, lookup);
                proof {
                    lemma_address_by_bytes(pending.user, tx.from);
                    if r is Some {
                        let decoded = choose|now: u64|
                            pending.metrics@ == Checkpoints::empty().mark(Stage::Decoded, now);
                        let signal = choose|now: u64|
                            r->0.metrics@ == pending.metrics@.mark(Stage::Signal, now);
                        assert(r->0.metrics@ == Checkpoints::empty().mark(
                            Stage::Decoded,
                            decoded,
                        ).mark(Stage::Signal, signal));
                    }
                }
                r
            },
            None => None,
        }
    }

    /// A signal for every tracked account whose position can be liquidated, in
    /// the order of the table, each with a latency record opened for it and
    /// the signal stage marked.
    pub fn scan_all_positions(&self) -> (r: Vec<LiquidationSignal>)
        requires
            self.wf(),
        ensures
            r@.len() == liquidatable_entries(self.entries()).len(),
            forall|i: int|
                0 <= i < r@.len() ==> {
                    &&& signal_carries(
                        #[trigger] r@[i],
                        liquidatable_entries(self.entries())[i].user,
                        liquidatable_entries(self.entries())[i].position,
                    )
                    &&& r@[i].metrics@.ordered()
                    &&& r@[i].metrics@.signal is Some
                    &&& exists|now: u64|
                        r@[i].metrics@ == Checkpoints::empty().mark(Stage::Signal, now)
                },
    {
        let mut signals: Vec<LiquidationSignal> = Vec::new();
        let mut i: usize = 0;
        proof {
            reveal(Seq::filter);
            assert(self.entries().take(0) =~= Seq::<TrackedPosition>::empty());
        }
        while i < self.positions.len()
            invariant
                i <= self.positions.len(),
                self.entries() == self.positions@,
                signals@.len() == liquidatable_entries(self.entries().take(i as int)).len(),
                forall|j: int|
                    0 <= j < signals@.len() ==> {
                        &&& signal_carries(
                            #[trigger] signals@[j],
                            liquidatable_entries(self.entries().take(i as int))[j].user,
                            liquidatable_entries(self.entries().take(i as int))[j].position,
                        )
                        &&& signals@[j].metrics@.ordered()
                        &&& signals@[j].metrics@.signal is Some
                        &&& exists|now: u64|
                            signals@[j].metrics@ == Checkpoints::empty().mark(Stage::Signal, now)
                    },
            decreases self.positions.len() - i,
        {
            let entry = self.positions[i];
            proof {
                reveal(Seq::filter);
                let next = self.entries().take(i as int + 1);
                assert(next.drop_last() =~= self.entries().take(i as int));
                assert(next.last() == entry);
            }
            if entry.position.is_liquidatable() {
                let mut metrics = LatencyMetrics::new();
                metrics.mark_signal();
                signals.push(
                    LiquidationSignal {
                        user: entry.user,
                        collateral: entry.position.collateral,
                        debt: entry.position.debt,
                        health_factor: entry.position.health_factor,
                        metrics,
                    },
                );
            }
            i += 1;
        }
        proof {
            assert(self.entries().take(i as int) =~= self.entries());
        }
        signals
    }
}

/// The entries whose position can be liquidated, in the entries' order.
pub open spec fn liquidatable_entries(entries: Seq<TrackedPosition>) -> Seq<TrackedPosition> {
    entries.filter(|e: TrackedPosition| liquidatable(e.position))
}

/// Every liquidatable entry of a table is a tracked account that can be
/// liquidated, and every tracked account that can be liquidated is among the
/// liquidatable entries.
pub proof fn lemma_liquidatable_entries(entries: Seq<TrackedPosition>, account: Seq<u8>)
    requires
        accounts_of(entries).no_duplicates(),
    ensures
        accounts_of(liquidatable_entries(entries)).contains(account) <==> table_of(
            entries,
        ).dom().contains(account) && liquidatable(table_of(entries)[account]),
{
    let pred = |e: TrackedPosition| liquidatable(e.position);
    let picked = liquidatable_entries(entries);
    let keys = accounts_of(entries);
    let picked_keys = accounts_of(picked);
    if picked_keys.contains(account) {
        let i = picked_keys.index_of(account);
        assert(picked_keys[i] == account);
        assert(picked.contains(picked[i]));
        entries.lemma_filter_contains_rev(pred, picked[i]);
        entries.lemma_filter_pred(pred, i);
        let j = entries.index_of(picked[i]);
        assert(keys[j] == account);
        lemma_table_entry(entries, j);
        assert(pred(picked[i]));
    }
    if table_of(entries).dom().contains(account) && liquidatable(table_of(entries)[account]) {
        let j = keys.index_of(account);
        assert(keys[j] == account);
        lemma_table_entry(entries, j);
        assert(pred(entries[j]));
        entries.lemma_filter_contains(pred, j);
        let i = picked.index_of(entries[j]);
        assert(picked_keys[i] == account);
    }
}

} // verus!
