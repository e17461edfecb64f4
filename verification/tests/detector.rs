use liquidio::address::Address;
use liquidio::amount::Amount;
use liquidio::executor::encode_liquidate_call;
use liquidio::liquidation_detector::LiquidationDetector;
use liquidio::liquidation_detector::LookupError;
use liquidio::liquidation_detector::UserPosition;
use liquidio::liquidation_detector::LIQUIDATION_THRESHOLD;
use liquidio::mempool_streamer::encode_call;
use liquidio::mempool_streamer::Transaction;
use liquidio::mempool_streamer::TransactionType;
use liquidio::metrics::LatencyMetrics;
use liquidio::metrics::Stage;

fn account(last: u8) -> Address {
    let mut bytes = [0u8; 20];
    bytes[19] = last;
    Address::from_bytes(bytes)
}

fn position(collateral: u128, debt: u128, health_factor: u64, last_updated: u64) -> UserPosition {
    UserPosition {
        collateral: Amount::from_u128(collateral),
        debt: Amount::from_u128(debt),
        health_factor: Amount::from_u64(health_factor),
        last_updated,
    }
}

fn event(from: Address, to: Address, kind: TransactionType) -> Transaction {
    Transaction { from, to: Some(to), input: encode_call(kind) }
}

#[test]
fn test_position_tracking() {
    let position = UserPosition {
        collateral: Amount::from_u64(10u64.pow(18)),
        debt: Amount::from_u128(1000 * 10u128.pow(18)),
        health_factor: Amount::from_u64(150),
        last_updated: 0,
    };

    assert!(!position.health_factor.lt(&Amount::from_u64(LIQUIDATION_THRESHOLD)));
}

#[test]
fn healthy_position_is_not_liquidatable_whatever_its_collateral() {
    for collateral in [0u128, 1, 10u128.pow(18), u128::MAX] {
        assert!(!position(collateral, 1000, 150, 0).is_liquidatable());
    }
    assert!(!position(5, 1000, 100, 0).is_liquidatable());
    assert!(position(5, 1000, 99, 0).is_liquidatable());
    assert!(position(5, 1, 0, 0).is_liquidatable());
}

#[test]
fn position_without_debt_is_not_liquidatable() {
    assert!(!position(5, 0, 80, 0).is_liquidatable());
    assert!(!position(5, 0, 0, 0).is_liquidatable());
}

#[test]
fn large_health_factor_is_not_liquidatable() {
    let p = UserPosition {
        collateral: Amount::zero(),
        debt: Amount::from_u64(1),
        health_factor: Amount { w0: 5, w1: 1, w2: 0, w3: 0 },
        last_updated: 0,
    };
    assert!(!p.is_liquidatable());
}

#[test]
fn default_position_is_empty() {
    let p = UserPosition::default();
    assert_eq!(p, position(0, 0, 0, 0));
}

#[test]
fn refreshed_position_is_read_back_whole() {
    let mut detector = LiquidationDetector::new();
    assert_eq!(detector.get_position(account(1)), None);

    let first = position(10, 20, 30, 40);
    assert_eq!(detector.update_position(account(1), Ok(first)), Ok(()));
    assert_eq!(detector.get_position(account(1)), Some(first));

    let second = position(11, 21, 31, 41);
    assert_eq!(detector.update_position(account(1), Ok(second)), Ok(()));
    assert_eq!(detector.get_position(account(1)), Some(second));
    assert_eq!(detector.get_position_count(), 1);
}

#[test]
fn refresh_leaves_other_accounts_alone() {
    let mut detector = LiquidationDetector::new();
    let a = position(1, 2, 3, 4);
    let b = position(5, 6, 7, 8);
    assert_eq!(detector.update_position(account(1), Ok(a)), Ok(()));
    assert_eq!(detector.update_position(account(2), Ok(b)), Ok(()));
    assert_eq!(detector.update_position(account(1), Ok(b)), Ok(()));
    assert_eq!(detector.get_position(account(1)), Some(b));
    assert_eq!(detector.get_position(account(2)), Some(b));
    assert_eq!(detector.get_position(account(3)), None);
    assert_eq!(detector.get_position_count(), 2);
}

#[test]
fn failed_lookup_leaves_the_table_unchanged() {
    let mut detector = LiquidationDetector::new();
    let a = position(1, 2, 3, 4);
    assert_eq!(detector.update_position(account(1), Ok(a)), Ok(()));
    assert_eq!(
        detector.update_position(account(1), Err(LookupError::Unavailable)),
        Err(LookupError::Unavailable)
    );
    assert_eq!(
        detector.update_position(account(2), Err(LookupError::Rejected)),
        Err(LookupError::Rejected)
    );
    assert_eq!(detector.get_position(account(1)), Some(a));
    assert_eq!(detector.get_position(account(2)), None);
    assert_eq!(detector.get_position_count(), 1);
}

#[test]
fn clear_forgets_every_account() {
    let mut detector = LiquidationDetector::new();
    assert_eq!(detector.get_position_count(), 0);
    assert_eq!(detector.update_position(account(1), Ok(position(1, 2, 3, 4))), Ok(()));
    assert_eq!(detector.update_position(account(2), Ok(position(1, 2, 3, 4))), Ok(()));
    assert_eq!(detector.get_position_count(), 2);
    detector.clear_positions();
    assert_eq!(detector.get_position_count(), 0);
    assert_eq!(detector.get_position(account(1)), None);
}

#[test]
fn liquidatable_position_gives_one_signal_with_the_refreshed_values() {
    let protocol = account(9);
    let mut detector = LiquidationDetector::new();
    let kinds = [
        TransactionType::Deposit,
        TransactionType::Withdraw,
        TransactionType::Borrow,
        TransactionType::Repay,
    ];
    for kind in kinds {
        let read = position(5 * 10u128.pow(18), 8000 * 10u128.pow(18), 80, 1_700_000_000);
        let tx = event(account(1), protocol, kind);
        let signal = detector.process_transaction(&tx, protocol, Ok(read)).unwrap();
        assert_eq!(signal.user, account(1));
        assert_eq!(signal.collateral, read.collateral);
        assert_eq!(signal.debt, read.debt);
        assert_eq!(signal.health_factor, read.health_factor);
        assert!(signal.metrics.checkpoint(Stage::Decoded).is_some());
        assert!(signal.metrics.checkpoint(Stage::Signal).is_some());
        assert!(signal.metrics.checkpoint(Stage::Simulated).is_none());
        assert!(signal.metrics.checkpoint(Stage::Decoded) <= signal.metrics.checkpoint(Stage::Signal));
        assert_eq!(detector.get_position(account(1)), Some(read));
    }
    assert_eq!(detector.get_position_count(), 1);
}

#[test]
fn healthy_or_debt_free_position_gives_no_signal() {
    let protocol = account(9);
    let mut detector = LiquidationDetector::new();
    let healthy = position(10u128.pow(18), 1000 * 10u128.pow(18), 150, 7);
    let tx = event(account(1), protocol, TransactionType::Borrow);
    assert!(detector.process_transaction(&tx, protocol, Ok(healthy)).is_none());
    assert_eq!(detector.get_position(account(1)), Some(healthy));

    let at_threshold = position(1, 1000, 100, 7);
    assert!(detector.process_transaction(&tx, protocol, Ok(at_threshold)).is_none());
    assert_eq!(detector.get_position(account(1)), Some(at_threshold));

    let no_debt = position(1, 0, 50, 7);
    assert!(detector.process_transaction(&tx, protocol, Ok(no_debt)).is_none());
    assert_eq!(detector.get_position(account(1)), Some(no_debt));
}

#[test]
fn account_moves_between_healthy_and_liquidatable() {
    let protocol = account(9);
    let mut detector = LiquidationDetector::new();
    let tx = event(account(1), protocol, TransactionType::Withdraw);
    assert!(detector.process_transaction(&tx, protocol, Ok(position(5, 1000, 150, 1))).is_none());
    assert!(detector.process_transaction(&tx, protocol, Ok(position(5, 1000, 80, 2))).is_some());
    assert!(detector.process_transaction(&tx, protocol, Ok(position(9, 1000, 120, 3))).is_none());
    assert!(detector.process_transaction(&tx, protocol, Ok(position(9, 1000, 99, 4))).is_some());
}

#[test]
fn liquidation_by_another_actor_refreshes_the_liquidated_account_without_signal() {
    let protocol = account(9);
    let liquidator = account(1);
    let liquidated = account(2);
    let mut detector = LiquidationDetector::new();
    let read = position(5, 8000, 80, 3);
    let tx = Transaction {
        from: liquidator,
        to: Some(protocol),
        input: encode_liquidate_call(liquidated, Amount::from_u64(1)),
    };
    assert!(detector.process_transaction(&tx, protocol, Ok(read)).is_none());
    assert_eq!(detector.get_position(liquidated), Some(read));
    assert_eq!(detector.get_position(liquidator), None);
    assert_eq!(detector.get_position_count(), 1);

    assert!(detector
        .process_transaction(&tx, protocol, Err(LookupError::Unavailable))
        .is_none());
    assert_eq!(detector.get_position(liquidated), Some(read));
    assert_eq!(detector.get_position(liquidator), None);

    let healthy = position(9, 100, 180, 4);
    assert!(detector.process_transaction(&tx, protocol, Ok(healthy)).is_none());
    assert_eq!(detector.get_position(liquidated), Some(healthy));
    assert_eq!(detector.get_position_count(), 1);
}

#[test]
fn liquidation_names_the_account_to_read() {
    let protocol = account(9);
    let tx = Transaction {
        from: account(1),
        to: Some(protocol),
        input: encode_liquidate_call(account(2), Amount::from_u64(1000)),
    };
    let pending = LiquidationDetector::begin_transaction(&tx, protocol).unwrap();
    assert_eq!(pending.kind, TransactionType::Liquidate);
    assert_eq!(pending.user, account(2));

    let own = Transaction {
        from: account(1),
        to: Some(protocol),
        input: encode_liquidate_call(account(1), Amount::from_u64(1000)),
    };
    let pending = LiquidationDetector::begin_transaction(&own, protocol).unwrap();
    assert_eq!(pending.user, account(1));
}

#[test]
fn liquidation_too_short_to_name_an_account_refreshes_the_sender() {
    let protocol = account(9);
    let mut detector = LiquidationDetector::new();
    let read = position(5, 8000, 80, 3);
    let mut input = encode_liquidate_call(account(2), Amount::from_u64(1));
    input.truncate(35);
    let tx = Transaction { from: account(1), to: Some(protocol), input };
    let pending = LiquidationDetector::begin_transaction(&tx, protocol).unwrap();
    assert_eq!(pending.user, account(1));
    assert!(detector.process_transaction(&tx, protocol, Ok(read)).is_none());
    assert_eq!(detector.get_position(account(1)), Some(read));
    assert_eq!(detector.get_position(account(2)), None);

    let bare = Transaction {
        from: account(3),
        to: Some(protocol),
        input: encode_call(TransactionType::Liquidate),
    };
    assert!(detector.process_transaction(&bare, protocol, Ok(read)).is_none());
    assert_eq!(detector.get_position(account(3)), Some(read));

    let mut exact = encode_liquidate_call(account(4), Amount::from_u64(1));
    exact.truncate(36);
    let tx = Transaction { from: account(1), to: Some(protocol), input: exact };
    assert!(detector.process_transaction(&tx, protocol, Ok(read)).is_none());
    assert_eq!(detector.get_position(account(4)), Some(read));
}

#[test]
fn other_actions_refresh_the_sender_whatever_their_arguments() {
    let protocol = account(9);
    let mut detector = LiquidationDetector::new();
    let read = position(5, 8000, 150, 3);
    let mut input = encode_liquidate_call(account(2), Amount::from_u64(1));
    let selector = TransactionType::Repay.selector();
    input[..4].copy_from_slice(&selector);
    let tx = Transaction { from: account(1), to: Some(protocol), input };
    assert!(detector.process_transaction(&tx, protocol, Ok(read)).is_none());
    assert_eq!(detector.get_position(account(1)), Some(read));
    assert_eq!(detector.get_position(account(2)), None);
}

#[test]
fn foreign_or_unrecognised_events_do_not_touch_the_table() {
    let protocol = account(9);
    let mut detector = LiquidationDetector::new();
    let read = position(5, 8000, 80, 3);

    let elsewhere = event(account(1), account(8), TransactionType::Borrow);
    assert!(detector.process_transaction(&elsewhere, protocol, Ok(read)).is_none());
    assert!(LiquidationDetector::begin_transaction(&elsewhere, protocol).is_none());

    let nowhere = Transaction { from: account(1), to: None, input: encode_call(TransactionType::Borrow) };
    assert!(detector.process_transaction(&nowhere, protocol, Ok(read)).is_none());

    let unknown = Transaction { from: account(1), to: Some(protocol), input: vec![1, 2, 3, 4] };
    assert!(detector.process_transaction(&unknown, protocol, Ok(read)).is_none());
    assert!(LiquidationDetector::begin_transaction(&unknown, protocol).is_none());

    let short = Transaction { from: account(1), to: Some(protocol), input: vec![0xd0, 0xe3] };
    assert!(detector.process_transaction(&short, protocol, Ok(read)).is_none());

    assert_eq!(detector.get_position_count(), 0);
}

#[test]
fn failed_lookup_gives_no_signal() {
    let protocol = account(9);
    let mut detector = LiquidationDetector::new();
    let tx = event(account(1), protocol, TransactionType::Borrow);
    assert!(detector.process_transaction(&tx, protocol, Ok(position(5, 8000, 80, 3))).is_some());
    assert!(detector
        .process_transaction(&tx, protocol, Err(LookupError::Rejected))
        .is_none());
    assert_eq!(detector.get_position(account(1)), Some(position(5, 8000, 80, 3)));
}

#[test]
fn two_step_processing_names_the_account_to_read() {
    let protocol = account(9);
    let mut detector = LiquidationDetector::new();
    let tx = event(account(4), protocol, TransactionType::Repay);
    let pending = LiquidationDetector::begin_transaction(&tx, protocol).unwrap();
    assert_eq!(pending.user, account(4));
    assert_eq!(pending.kind, TransactionType::Repay);
    assert!(pending.metrics.checkpoint(Stage::Decoded).is_some());
    assert!(pending.metrics.checkpoint(Stage::Signal).is_none());

    let read = position(5, 8000, 80, 3);
    let signal = detector.finish_transaction(pending, Ok(read)).unwrap();
    assert_eq!(signal.user, account(4));
    assert_eq!(signal.debt, read.debt);
    assert_eq!(
        signal.metrics.checkpoint(Stage::Decoded),
        pending.metrics.checkpoint(Stage::Decoded)
    );
    assert!(signal.metrics.checkpoint(Stage::Signal).is_some());

    let again = LiquidationDetector::begin_transaction(&tx, protocol).unwrap();
    assert!(detector.finish_transaction(again, Err(LookupError::Unavailable)).is_none());
    assert_eq!(detector.get_position(account(4)), Some(read));
}

#[test]
fn check_liquidation_marks_the_signal_stage() {
    let mut detector = LiquidationDetector::new();
    assert_eq!(detector.update_position(account(1), Ok(position(5, 8000, 80, 3))), Ok(()));
    assert_eq!(detector.update_position(account(2), Ok(position(5, 8000, 180, 3))), Ok(()));

    let mut metrics = LatencyMetrics::new();
    metrics.mark_at(Stage::Decoded, 10);
    let signal = detector.check_liquidation(account(1), &mut metrics).unwrap();
    assert_eq!(signal.user, account(1));
    assert_eq!(signal.collateral, Amount::from_u64(5));
    assert_eq!(signal.debt, Amount::from_u64(8000));
    assert_eq!(signal.health_factor, Amount::from_u64(80));
    assert!(metrics.checkpoint(Stage::Signal).is_some());
    assert_eq!(signal.metrics.checkpoint(Stage::Signal), metrics.checkpoint(Stage::Signal));
    assert_eq!(signal.metrics.checkpoint(Stage::Decoded), Some(10));

    let mut untouched = LatencyMetrics::new();
    assert!(detector.check_liquidation(account(2), &mut untouched).is_none());
    assert!(untouched.checkpoint(Stage::Signal).is_none());
    assert!(detector.check_liquidation(account(3), &mut untouched).is_none());
    assert!(untouched.checkpoint(Stage::Signal).is_none());
}

#[test]
fn scan_finds_every_liquidatable_account_in_table_order() {
    let mut detector = LiquidationDetector::new();
    assert!(detector.scan_all_positions().is_empty());
    assert_eq!(detector.update_position(account(1), Ok(position(5, 8000, 80, 1))), Ok(()));
    assert_eq!(detector.update_position(account(2), Ok(position(6, 1000, 150, 2))), Ok(()));
    assert_eq!(detector.update_position(account(3), Ok(position(7, 0, 10, 3))), Ok(()));
    assert_eq!(detector.update_position(account(4), Ok(position(8, 9000, 99, 4))), Ok(()));

    let signals = detector.scan_all_positions();
    assert_eq!(signals.len(), 2);
    assert_eq!(signals[0].user, account(1));
    assert_eq!(signals[0].collateral, Amount::from_u64(5));
    assert_eq!(signals[0].debt, Amount::from_u64(8000));
    assert_eq!(signals[0].health_factor, Amount::from_u64(80));
    assert_eq!(signals[1].user, account(4));
    assert_eq!(signals[1].debt, Amount::from_u64(9000));
    for signal in &signals {
        assert!(signal.metrics.checkpoint(Stage::Signal).is_some());
    }

    assert_eq!(detector.update_position(account(1), Ok(position(5, 8000, 130, 5))), Ok(()));
    let signals = detector.scan_all_positions();
    assert_eq!(signals.len(), 1);
    assert_eq!(signals[0].user, account(4));
}
