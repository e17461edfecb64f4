use liquidio::address::Address;
use liquidio::amount::Amount;
use liquidio::config::Config;
use liquidio::config::ConfigError;

fn account(last: u8) -> Address {
    let mut bytes = [0u8; 20];
    bytes[19] = last;
    Address::from_bytes(bytes)
}

fn config(protocol: Address, token: Address) -> Config {
    Config {
        anvil_rpc_url: "http://127.0.0.1:8545".to_string(),
        anvil_ws_url: "ws://127.0.0.1:8545".to_string(),
        chain_id: 31337,
        lending_protocol_address: protocol,
        mock_token_address: token,
        liquidator_private_key: None,
        min_profit_threshold_usd: Amount::from_u128(10_000_000_000_000_000_000),
        max_gas_price_gwei: 100,
        mempool_batch_size: 100,
        health_check_interval_ms: 100,
    }
}

#[test]
fn settings_with_both_addresses_are_valid() {
    assert_eq!(config(account(1), account(2)).validate(), Ok(()));
    assert_eq!(config(account(1), account(1)).validate(), Ok(()));
}

#[test]
fn unset_protocol_address_is_reported_first() {
    assert_eq!(
        config(Address::zero(), account(2)).validate(),
        Err(ConfigError::ProtocolAddressNotSet)
    );
    assert_eq!(
        config(Address::zero(), Address::zero()).validate(),
        Err(ConfigError::ProtocolAddressNotSet)
    );
}

#[test]
fn unset_token_address_is_reported() {
    assert_eq!(
        config(account(1), Address::zero()).validate(),
        Err(ConfigError::TokenAddressNotSet)
    );
}

#[test]
fn errors_in_words() {
    assert_eq!(ConfigError::ProtocolAddressNotSet.message(), "LENDING_PROTOCOL_ADDRESS not set");
    assert_eq!(ConfigError::TokenAddressNotSet.message(), "MOCK_TOKEN_ADDRESS not set");
}
