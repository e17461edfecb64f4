//! The estimate of what a liquidation would earn, in fixed-point arithmetic.
//!
//! Collateral is counted in units of `10^-18` of the asset, debt and every
//! value in units of `10^-18` of a dollar, and the price in whole dollars per
//! unit of the asset.

use crate::amount::amount_limit;
use crate::amount::lemma_amount_view;
use crate::amount::word_checked_add;
use crate::amount::word_checked_div;
use crate::amount::word_checked_mul;
use crate::amount::word_checked_sub;
use crate::amount::Amount;
use crate::liquidation_detector::LiquidationSignal;
use vstd::prelude::*;

verus! {

/// The price of one unit of the asset, in dollars, that the quick check
/// assumes.
pub const ETH_PRICE_USD: u64 = 2000;

/// The collateral seized for a debt, in percent of the debt's worth.
pub const LIQUIDATION_BONUS: u64 = 110;

/// The denominator of the liquidation bonus.
pub const PRECISION: u64 = 100;

/// The gas assumed for a liquidation where no estimate can be had.
pub const FALLBACK_GAS_ESTIMATE: u64 = 300_000;

/// The gas price assumed where none can be had: 50 gwei.
pub const FALLBACK_GAS_PRICE: u64 = 50_000_000_000;

/// What the quick check takes the gas of a liquidation to cost, in units of
/// `10^-18` of a dollar: the fallback gas at the fallback gas price and the
/// assumed asset price, which is thirty dollars.
pub const ROUGH_GAS_COST_USD: u128 = 30_000_000_000_000_000_000;

/// A signed amount: a magnitude and a sign.
#[derive(Clone, Copy, Debug, PartialEq, Eq, Structural)]
pub struct SignedAmount {
    pub negative: bool,
    pub magnitude: Amount,
}

impl View for SignedAmount {
    type V = int;

    open spec fn view(&self) -> int {
        if self.negative {
            -(self.magnitude@ as int)
        } else {
            self.magnitude@ as int
        }
    }
}

/// The outcome of a simulation.
#[derive(Clone, Copy, Debug, PartialEq, Eq, Structural)]
pub struct SimulationResult {
    pub profitable: bool,
    pub expected_profit_usd: SignedAmount,
    pub collateral_to_seize: Amount,
    pub debt_to_cover: Amount,
    pub estimated_gas: Amount,
    pub estimated_gas_cost_usd: Amount,
}

/// Why no estimate could be made.
#[derive(Clone, Copy, Debug, PartialEq, Eq, Structural)]
pub enum SimulationError {
    /// No price of the asset is known, or the price is zero.
    PriceUnavailable,
    /// A quantity of the estimate does not fit in 256 bits.
    Overflow,
}

/// The collateral that covers a debt at a price, before the bonus.
pub open spec fn collateral_for(debt: nat, price: nat) -> nat {
    debt / price
}

/// The collateral seized for a debt at a price: what covers the debt, with the
/// liquidation bonus.
pub open spec fn collateral_seized(debt: nat, price: nat) -> nat {
    collateral_for(debt, price) * (LIQUIDATION_BONUS as nat) / (PRECISION as nat)
}

/// What the gas costs, in the asset's smallest unit.
pub open spec fn gas_cost(gas: nat, gas_price: nat) -> nat {
    gas * gas_price
}

/// What the gas costs, in dollars.
pub open spec fn gas_cost_usd(gas: nat, gas_price: nat, price: nat) -> nat {
    gas_cost(gas, gas_price) * price
}

/// What the seized collateral is worth, in dollars.
pub open spec fn seized_value_usd(debt: nat, price: nat) -> nat {
    collateral_seized(debt, price) * price
}

/// What the liquidation pays for: the debt and the gas, in dollars.
pub open spec fn outlay_usd(debt: nat, price: nat, gas: nat, gas_price: nat) -> nat {
    debt + gas_cost_usd(gas, gas_price, price)
}

/// What the liquidation is expected to earn, in dollars: the worth of the
/// seized collateral, less the debt covered and the gas.
pub open spec fn expected_profit_usd(debt: nat, price: nat, gas: nat, gas_price: nat) -> int {
    seized_value_usd(debt, price) - outlay_usd(debt, price, gas, gas_price)
}

/// Whether every quantity of the estimate fits in 256 bits.
pub open spec fn estimate_fits(debt: nat, price: nat, gas: nat, gas_price: nat) -> bool {
    &&& collateral_for(debt, price) * (LIQUIDATION_BONUS as nat) < amount_limit()
    &&& seized_value_usd(debt, price) < amount_limit()
    &&& gas_cost(gas, gas_price) < amount_limit()
    &&& gas_cost_usd(gas, gas_price, price) < amount_limit()
    &&& outlay_usd(debt, price, gas, gas_price) < amount_limit()
}

/// The gas estimate that the simulation works with: the one it is given, or
/// the fallback.
pub open spec fn gas_or_fallback(gas_estimate: Option<Amount>) -> nat {
    match gas_estimate {
        Some(g) => g@,
        None => FALLBACK_GAS_ESTIMATE as nat,
    }
}

/// The gas price that the simulation works with: the one it is given, or the
/// fallback.
pub open spec fn gas_price_or_fallback(gas_price: Option<Amount>) -> nat {
    match gas_price {
        Some(g) => g@,
        None => FALLBACK_GAS_PRICE as nat,
    }
}

/// Whether the estimate can be made: the price is known and not zero, and
/// every quantity fits.
pub open spec fn can_estimate(
    debt: nat,
    price: Option<Amount>,
    gas_estimate: Option<Amount>,
    gas_price: Option<Amount>,
) -> bool {
    &&& price is Some
    &&& price->0@ != 0
    &&& estimate_fits(
        debt,
        price->0@,
        gas_or_fallback(gas_estimate),
        gas_price_or_fallback(gas_price),
    )
}

/// Whether the estimate can be made and says that the liquidation pays: the
/// price is known and not zero, every quantity fits, and the expected profit
/// is at least the least profit.
pub open spec fn liquidation_pays(
    min_profit: nat,
    debt: nat,
    price: Option<Amount>,
    gas_estimate: Option<Amount>,
    gas_price: Option<Amount>,
) -> bool {
    &&& price is Some
    &&& price->0@ != 0
    &&& estimate_fits(
        debt,
        price->0@,
        gas_or_fallback(gas_estimate),
        gas_price_or_fallback(gas_price),
    )
    &&& expected_profit_usd(
        debt,
        price->0@,
        gas_or_fallback(gas_estimate),
        gas_price_or_fallback(gas_price),
    ) >= min_profit
}

/// What the quick check decides: whether liquidating the debt pays at the
/// assumed price with the fallback gas at the fallback gas price. That is,
/// whether the bonus, which is what the seized collateral is worth beyond the
/// debt, is at least the rough gas cost and the least profit together, with
/// every quantity fitting in 256 bits.
pub open spec fn quick_check(debt: nat, min_profit: nat) -> bool {
    &&& estimate_fits(
        debt,
        ETH_PRICE_USD as nat,
        FALLBACK_GAS_ESTIMATE as nat,
        FALLBACK_GAS_PRICE as nat,
    )
    &&& expected_profit_usd(
        debt,
        ETH_PRICE_USD as nat,
        FALLBACK_GAS_ESTIMATE as nat,
        FALLBACK_GAS_PRICE as nat,
    ) >= min_profit
}

/// The rough gas cost is what the fallback gas costs at the fallback gas price
/// and the assumed price, so the quick check holds the bonus against the rough
/// gas cost and the least profit.
pub proof fn lemma_quick_check_by_bonus(debt: nat, min_profit: nat)
    ensures
        gas_cost_usd(
            FALLBACK_GAS_ESTIMATE as nat,
            FALLBACK_GAS_PRICE as nat,
            ETH_PRICE_USD as nat,
        ) == ROUGH_GAS_COST_USD,
        quick_check(debt, min_profit) ==> seized_value_usd(debt, ETH_PRICE_USD as nat) >= debt
            + ROUGH_GAS_COST_USD + min_profit,
{
    assert(300_000 * 50_000_000_000 == 15_000_000_000_000_000nat);
    assert(15_000_000_000_000_000 * 2000 == 30_000_000_000_000_000_000nat);
}

/// The quick check is conservative. Where it passes a debt, the simulation at
/// the assumed price pays for every gas estimate and gas price under which
/// the gas costs no more than the rough gas cost. Where the gas is cheaper
/// than that, the simulation may pay for a debt that the quick check rejects.
pub proof fn lemma_quick_check_conservative(
    min_profit: nat,
    debt: nat,
    price: Option<Amount>,
    gas_estimate: Option<Amount>,
    gas_price: Option<Amount>,
)
    requires
        quick_check(debt, min_profit),
        price is Some,
        price->0@ == ETH_PRICE_USD,
        gas_cost_usd(
            gas_or_fallback(gas_estimate),
            gas_price_or_fallback(gas_price),
            ETH_PRICE_USD as nat,
        ) <= ROUGH_GAS_COST_USD,
    ensures
        liquidation_pays(min_profit, debt, price, gas_estimate, gas_price),
{
    lemma_quick_check_by_bonus(debt, min_profit);
}

/// Simulates liquidations to tell whether they pay.
#[derive(Clone, Copy, Debug)]
pub struct LiquidationSimulator {
    /// The least expected profit, in units of `10^-18` of a dollar, at which
    /// a liquidation counts as profitable.
    pub min_profit_threshold: Amount,
}

impl LiquidationSimulator {
    /// A simulator with the given least profit.
    pub fn new(min_profit_threshold: Amount) -> (r: LiquidationSimulator)
        ensures
            r.min_profit_threshold == min_profit_threshold,
    {
        LiquidationSimulator { min_profit_threshold }
    }

    /// Estimates what liquidating the whole debt of the signal's position
    /// would earn.
    ///
    /// `price` is the price of one unit of the asset in dollars; without a
    /// price, or with a price of zero, there is no estimate. `gas_estimate`
    /// and `gas_price` are what the chain answered; where it did not, the
    /// fallback values stand in.
    pub fn simulate_liquidation(
        &self,
        signal: &LiquidationSignal,
        price: Option<Amount>,
        gas_estimate: Option<Amount>,
        gas_price: Option<Amount>,
    ) -> (r: Result<SimulationResult, SimulationError>)
        ensures
            r == Err::<SimulationResult, SimulationError>(SimulationError::PriceUnavailable) <==> (
            price is None || price->0@ == 0),
            r == Err::<SimulationResult, SimulationError>(SimulationError::Overflow) <==> (
            price is Some && price->0@ != 0 && !estimate_fits(
                signal.debt@,
                price->0@,
                gas_or_fallback(gas_estimate),
                gas_price_or_fallback(gas_price),
            )),
            r is Ok <==> can_estimate(signal.debt@, price, gas_estimate, gas_price),
            (r is Ok && r->Ok_0.profitable) <==> liquidation_pays(
                self.min_profit_threshold@,
                signal.debt@,
                price,
                gas_estimate,
                gas_price,
            ),
            r is Ok ==> {
                let debt = signal.debt@;
                let gas = gas_or_fallback(gas_estimate);
                let per_gas = gas_price_or_fallback(gas_price);
                &&& r->Ok_0.debt_to_cover == signal.debt
                &&& r->Ok_0.collateral_to_seize@ == collateral_seized(debt, price->0@)
                &&& r->Ok_0.estimated_gas@ == gas
                &&& r->Ok_0.estimated_gas_cost_usd@ == gas_cost_usd(gas, per_gas, price->0@)
                &&& r->Ok_0.expected_profit_usd@ == expected_profit_usd(
                    debt,
                    price->0@,
                    gas,
                    per_gas,
                )
                &&& r->Ok_0.expected_profit_usd.negative ==> r->Ok_0.expected_profit_usd@ < 0
                &&& r->Ok_0.profitable == (expected_profit_usd(debt, price->0@, gas, per_gas)
                    >= self.min_profit_threshold@)
            },
    {
        let price: Amount = match price {
            Some(p) => p,
            None => {
                return Err(SimulationError::PriceUnavailable);
            },
        };
        let debt_to_cover: Amount = signal.debt;
        let collateral_value: Amount = match word_checked_div(debt_to_cover, price) {
            Some(v) => v,
            None => {
                return Err(SimulationError::PriceUnavailable);
            },
        };
        let gas: Amount = match gas_estimate {
            Some(g) => g,
            None => Amount::from_u64(FALLBACK_GAS_ESTIMATE),
        };
        let per_gas: Amount = match gas_price {
            Some(g) => g,
            None => Amount::from_u64(FALLBACK_GAS_PRICE),
        };
        let with_bonus: Amount = match word_checked_mul(
            collateral_value,
            Amount::from_u64(LIQUIDATION_BONUS),
        ) {
            Some(v) => v,
            None => {
                return Err(SimulationError::Overflow);
            },
        };
        let collateral_to_seize: Amount = match word_checked_div(
            with_bonus,
            Amount::from_u64(PRECISION),
        ) {
            Some(v) => v,
            None => {
                return Err(SimulationError::Overflow);
            },
        };
        let seized_value: Amount = match word_checked_mul(collateral_to_seize, price) {
            Some(v) => v,
            None => {
                return Err(SimulationError::Overflow);
            },
        };
        let gas_cost_wei: Amount = match word_checked_mul(gas, per_gas) {
            Some(v) => v,
            None => {
                return Err(SimulationError::Overflow);
            },
        };
        let gas_cost_dollars: Amount = match word_checked_mul(gas_cost_wei, price) {
            Some(v) => v,
            None => {
                return Err(SimulationError::Overflow);
            },
        };
        let outlay: Amount = match word_checked_add(debt_to_cover, gas_cost_dollars) {
            Some(v) => v,
            None => {
                return Err(SimulationError::Overflow);
            },
        };
        proof {
            lemma_amount_view(with_bonus, seized_value);
            lemma_amount_view(gas_cost_wei, gas_cost_dollars);
            lemma_amount_view(outlay, outlay);
        }
        let (expected_profit, profitable) = match word_checked_sub(seized_value, outlay) {
            Some(gain) => (
                SignedAmount { negative: false, magnitude: gain },
                self.min_profit_threshold.le(&gain),
            ),
            None => match word_checked_sub(outlay, seized_value) {
                Some(loss) => (SignedAmount { negative: true, magnitude: loss }, false),
                None => (SignedAmount { negative: false, magnitude: Amount::zero() }, false),
            },
        };
        Ok(
            SimulationResult {
                profitable,
                expected_profit_usd: expected_profit,
                collateral_to_seize,
                debt_to_cover,
                estimated_gas: gas,
                estimated_gas_cost_usd: gas_cost_dollars,
            },
        )
    }

    /// A cheap filter to run before a simulation, which asks nothing of the
    /// chain: whether liquidating the signal's debt pays at the assumed price
    /// and the rough gas cost. It never passes what the simulation rejects at
    /// the assumed price and a gas cost of no more than the rough one
    /// (`lemma_quick_check_conservative`); it may reject what the simulation
    /// passes where the gas is cheaper.
    pub fn quick_profitability_check(&self, signal: &LiquidationSignal) -> (r: bool)
        ensures
            r == quick_check(signal.debt@, self.min_profit_threshold@),
            r ==> estimate_fits(
                signal.debt@,
                ETH_PRICE_USD as nat,
                FALLBACK_GAS_ESTIMATE as nat,
                FALLBACK_GAS_PRICE as nat,
            ) && expected_profit_usd(
                signal.debt@,
                ETH_PRICE_USD as nat,
                FALLBACK_GAS_ESTIMATE as nat,
                FALLBACK_GAS_PRICE as nat,
            ) >= self.min_profit_threshold@,
    {
        match self.simulate_liquidation(signal, Some(Amount::from_u64(ETH_PRICE_USD)), None, None) {
            Ok(result) => result.profitable,
            Err(_) => false,
        }
    }

    /// The part of the debt to cover: the whole of it.
    pub fn optimize_debt_amount(&self, signal: &LiquidationSignal) -> (r: Amount)
        ensures
            r == signal.debt,
    {
        signal.debt
    }
}

} // verus!
