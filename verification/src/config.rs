//! The settings of the pipeline and their validation.

use crate::address::Address;
use crate::amount::Amount;
use vstd::prelude::*;

verus! {

/// The settings of the pipeline.
#[derive(Clone, Debug, PartialEq, Eq)]
pub struct Config {
    pub anvil_rpc_url: String,
    pub anvil_ws_url: String,
    pub chain_id: u64,
    pub lending_protocol_address: Address,
    pub mock_token_address: Address,
    pub liquidator_private_key: Option<[u8; 32]>,
    /// The least profit at which a liquidation counts as profitable, in units
    /// of `10^-18` of a dollar.
    pub min_profit_threshold_usd: Amount,
    pub max_gas_price_gwei: u64,
    pub mempool_batch_size: usize,
    pub health_check_interval_ms: u64,
}

/// What is missing from the settings.
#[derive(Clone, Copy, Debug, PartialEq, Eq, Structural)]
pub enum ConfigError {
    /// The address of the lending protocol is not set.
    ProtocolAddressNotSet,
    /// The address of the token is not set.
    TokenAddressNotSet,
}

/// The address that stands for "not set": twenty zero bytes.
pub open spec fn unset_address() -> Seq<u8> {
    Seq::new(20, |i: int| 0u8)
}

impl ConfigError {
    /// The error in words.
    pub fn message(&self) -> (r: &'static str)
        ensures
            r@ == match self {
                ConfigError::ProtocolAddressNotSet => "LENDING_PROTOCOL_ADDRESS not set"@,
                ConfigError::TokenAddressNotSet => "MOCK_TOKEN_ADDRESS not set"@,
            },
    {
        match self {
            ConfigError::ProtocolAddressNotSet => "LENDING_PROTOCOL_ADDRESS not set",
            ConfigError::TokenAddressNotSet => "MOCK_TOKEN_ADDRESS not set",
        }
    }
}

impl Config {
    /// Checks that both addresses are set. Where neither is, the protocol's
    /// address is the one reported.
    pub fn validate(&self) -> (r: Result<(), ConfigError>)
        ensures
            r == Err::<(), ConfigError>(ConfigError::ProtocolAddressNotSet)
                <==> self.lending_protocol_address@ == unset_address(),
            r == Err::<(), ConfigError>(ConfigError::TokenAddressNotSet) <==> (
            self.lending_protocol_address@ != unset_address() && self.mock_token_address@
                == unset_address()),
    {
        let unset = Address::zero();
        if self.lending_protocol_address.same(&unset) {
            return Err(ConfigError::ProtocolAddressNotSet);
        }
        if self.mock_token_address.same(&unset) {
            return Err(ConfigError::TokenAddressNotSet);
        }
        Ok(())
    }
}

} // verus!
