//! The construction of liquidation transactions.

use crate::address::Address;
use crate::amount::big_endian_value;
use crate::amount::lemma_amount_view;
use crate::amount::word_checked_add;
use crate::amount::word_checked_mul;
use crate::amount::word_to_big_endian;
use crate::amount::Amount;
use crate::liquidation_detector::LiquidationSignal;
use crate::liquidation_detector::LookupError;
use crate::mempool_streamer::append_bytes;
use crate::mempool_streamer::classify;
use crate::mempool_streamer::encode_call;
use crate::mempool_streamer::lemma_classify_round_trip;
use crate::mempool_streamer::lemma_selectors_distinct;
use crate::mempool_streamer::selector_of;
use crate::mempool_streamer::TransactionType;
use crate::metrics::LatencyMetrics;
use crate::metrics::Stage;
use crate::simulator::SimulationResult;
use vstd::prelude::*;

verus! {

/// The tip offered per unit of gas: 2 gwei.
pub const PRIORITY_FEE: u64 = 2_000_000_000;

/// The gas limit of a liquidation transaction.
pub const LIQUIDATION_GAS_LIMIT: u64 = 350_000;

/// The chain that the transactions are made for.
pub const CHAIN_ID: u64 = 31337;

/// The smallest units of the asset in one gwei.
pub const WEI_PER_GWEI: u64 = 1_000_000_000;

/// A liquidation transaction that is ready to be signed and sent.
#[derive(Clone, Debug, PartialEq, Eq)]
pub struct LiquidationRequest {
    pub to: Address,
    pub data: Vec<u8>,
    pub gas: u64,
    pub max_fee_per_gas: Amount,
    pub max_priority_fee_per_gas: Amount,
    pub chain_id: u64,
}

/// Why no liquidation transaction was made.
#[derive(Clone, Copy, Debug, PartialEq, Eq, Structural)]
pub enum ExecutionError {
    /// No wallet is configured to sign with.
    NoWallet,
    /// The current gas price could not be read.
    GasPriceUnavailable,
}

/// Whether the bytes are the call data of liquidating `user` for a debt: the
/// selector, the account padded on the left to 32 bytes, and the debt as 32
/// bytes, most significant byte first.
pub open spec fn is_liquidate_call(data: Seq<u8>, user: Seq<u8>, debt: nat) -> bool {
    &&& data.len() == 68
    &&& data.subrange(0, 4) == selector_of(TransactionType::Liquidate)
    &&& data.subrange(4, 16) == Seq::new(12, |i: int| 0u8)
    &&& data.subrange(16, 36) == user
    &&& big_endian_value(data.subrange(36, 68)) == debt
}

/// The most that is offered per unit of gas: twice the current gas price and
/// the tip, but no more than the cap, which is given in gwei.
pub open spec fn capped_fee(gas_price: nat, max_gas_price_gwei: nat) -> nat {
    if gas_price * 2 + (PRIORITY_FEE as nat) < max_gas_price_gwei * (WEI_PER_GWEI as nat) {
        gas_price * 2 + (PRIORITY_FEE as nat)
    } else {
        max_gas_price_gwei * (WEI_PER_GWEI as nat)
    }
}

/// The call data of liquidating `user` for `debt_to_cover`.
pub fn encode_liquidate_call(user: Address, debt_to_cover: Amount) -> (r: Vec<u8>)
    ensures
        is_liquidate_call(r@, user@, debt_to_cover@),
        classify(r@) == Some(TransactionType::Liquidate),
{
    let mut data = encode_call(TransactionType::Liquidate);
    let padding: [u8; 12] = [0u8; 12];
    append_bytes(&mut data, padding.as_slice());
    append_bytes(&mut data, user.bytes.as_slice());
    let word = word_to_big_endian(debt_to_cover);
    append_bytes(&mut data, word.as_slice());
    proof {
        let kind = TransactionType::Liquidate;
        lemma_selectors_distinct(kind, kind);
        assert(data@.subrange(0, 4) =~= selector_of(kind));
        assert(data@.subrange(4, 16) =~= Seq::new(12, |i: int| 0u8));
        assert(data@.subrange(16, 36) =~= user@);
        assert(data@.subrange(36, 68) =~= word@);
        assert(data@ =~= selector_of(kind) + (padding@ + user@ + word@));
        lemma_classify_round_trip(kind, padding@ + user@ + word@);
    }
    data
}

/// The most to offer per unit of gas at the given gas price.
pub fn max_fee_per_gas(gas_price: Amount, max_gas_price_gwei: u64) -> (r: Amount)
    ensures
        r@ == capped_fee(gas_price@, max_gas_price_gwei as nat),
{
    assert((max_gas_price_gwei as u128) * (WEI_PER_GWEI as u128) <= 0xFFFF_FFFF_FFFF_FFFF
        * 1_000_000_000) by (nonlinear_arith)
        requires
            max_gas_price_gwei <= 0xFFFF_FFFF_FFFF_FFFF,
            WEI_PER_GWEI == 1_000_000_000,
    ;
    let cap: Amount = Amount::from_u128((max_gas_price_gwei as u128) * (WEI_PER_GWEI as u128));
    proof {
        lemma_amount_view(cap, cap);
    }
    let doubled: Amount = match word_checked_mul(gas_price, Amount::from_u64(2)) {
        Some(v) => v,
        None => {
            return cap;
        },
    };
    let offered: Amount = match word_checked_add(doubled, Amount::from_u64(PRIORITY_FEE)) {
        Some(v) => v,
        None => {
            return cap;
        },
    };
    if offered.lt(&cap) {
        offered
    } else {
        cap
    }
}

/// The transaction that liquidates `user` for `debt_to_cover` on the protocol,
/// priced for the given gas price.
pub fn build_liquidation_transaction(
    protocol_address: Address,
    user: Address,
    debt_to_cover: Amount,
    gas_price: Amount,
    max_gas_price_gwei: u64,
) -> (r: LiquidationRequest)
    ensures
        r.to == protocol_address,
        is_liquidate_call(r.data@, user@, debt_to_cover@),
        r.gas == LIQUIDATION_GAS_LIMIT,
        r.max_fee_per_gas@ == capped_fee(gas_price@, max_gas_price_gwei as nat),
        r.max_priority_fee_per_gas@ == PRIORITY_FEE,
        r.chain_id == CHAIN_ID,
{
    LiquidationRequest {
        to: protocol_address,
        data: encode_liquidate_call(user, debt_to_cover),
        gas: LIQUIDATION_GAS_LIMIT,
        max_fee_per_gas: max_fee_per_gas(gas_price, max_gas_price_gwei),
        max_priority_fee_per_gas: Amount::from_u64(PRIORITY_FEE),
        chain_id: CHAIN_ID,
    }
}

/// Makes the liquidation transactions.
#[derive(Clone, Copy, Debug)]
pub struct LiquidationExecutor {
    pub protocol_address: Address,
    pub wallet_configured: bool,
    pub max_gas_price_gwei: u64,
}

impl LiquidationExecutor {
    /// An executor for the protocol at the given address.
    pub fn new(protocol_address: Address, wallet_configured: bool, max_gas_price_gwei: u64) -> (r:
        LiquidationExecutor)
        ensures
            r.protocol_address == protocol_address,
            r.wallet_configured == wallet_configured,
            r.max_gas_price_gwei == max_gas_price_gwei,
    {
        LiquidationExecutor { protocol_address, wallet_configured, max_gas_price_gwei }
    }

    /// Makes the transaction that liquidates the signal's account for the debt
    /// that the simulation settled on, and marks the constructed and the sent
    /// stage in the latency record. Without a wallet, or without a gas price,
    /// no transaction is made and the record is left as it was.
    pub fn execute_liquidation(
        &self,
        signal: &LiquidationSignal,
        simulation: &SimulationResult,
        metrics: &mut LatencyMetrics,
        gas_price: Result<Amount, LookupError>,
    ) -> (r: Result<LiquidationRequest, ExecutionError>)
        ensures
            final(metrics)@.ordered(),
            final(metrics).received() == old(metrics).received(),
            r == Err::<LiquidationRequest, ExecutionError>(ExecutionError::NoWallet)
                <==> !self.wallet_configured,
            r == Err::<LiquidationRequest, ExecutionError>(ExecutionError::GasPriceUnavailable)
                <==> self.wallet_configured && gas_price is Err,
            r is Err ==> *final(metrics) == *old(metrics),
            r is Ok ==> {
                &&& r->Ok_0.to == self.protocol_address
                &&& is_liquidate_call(r->Ok_0.data@, signal.user@, simulation.debt_to_cover@)
                &&& r->Ok_0.gas == LIQUIDATION_GAS_LIMIT
                &&& r->Ok_0.max_fee_per_gas@ == capped_fee(
                    gas_price->Ok_0@,
                    self.max_gas_price_gwei as nat,
                )
                &&& r->Ok_0.max_priority_fee_per_gas@ == PRIORITY_FEE
                &&& r->Ok_0.chain_id == CHAIN_ID
                &&& exists|constructed: u64, sent: u64|
                    final(metrics)@ == old(metrics)@.mark(Stage::Constructed, constructed).mark(
                        Stage::Sent,
                        sent,
                    )
            },
    {
        proof {
            use_type_invariant(&*metrics);
        }
        if !self.wallet_configured {
            return Err(ExecutionError::NoWallet);
        }
        let gas_price: Amount = match gas_price {
            Ok(p) => p,
            Err(_) => {
                return Err(ExecutionError::GasPriceUnavailable);
            },
        };
        let request = build_liquidation_transaction(
            self.protocol_address,
            signal.user,
            simulation.debt_to_cover,
            gas_price,
            self.max_gas_price_gwei,
        );
        metrics.mark_constructed();
        let ghost after_constructed = metrics@;
        metrics.mark_sent();
        proof {
            let constructed = choose|now: u64|
                after_constructed == old(metrics)@.mark(Stage::Constructed, now);
            let sent = choose|now: u64| metrics@ == after_constructed.mark(Stage::Sent, now);
            assert(metrics@ == old(metrics)@.mark(Stage::Constructed, constructed).mark(
                Stage::Sent,
                sent,
            ));
        }
        Ok(request)
    }
}

} // verus!
