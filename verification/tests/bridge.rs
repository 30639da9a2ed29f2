use lib::bridge::requests::recovery::RecoveryAction;
use lib::bridge::requests::PropertyMetadata;
use lib::bridge::{
    BridgeError, BridgeOperation, BridgeOperationStatus, ChainBridgeInfo, ChainTxStatus, PauseFlags, PauseReason,
    PropertyBridge,
};
use lib::common::{AccountId, Hash32};
use lib::dex::CrossChainTradeStatus;

fn alice() -> AccountId {
    AccountId::from_byte(1)
}
fn bob() -> AccountId {
    AccountId::from_byte(2)
}
fn charlie() -> AccountId {
    AccountId::from_byte(3)
}
fn django() -> AccountId {
    AccountId::from_byte(4)
}
fn eve() -> AccountId {
    AccountId::from_byte(5)
}

fn h(b: u64) -> Hash32 {
    Hash32 { w0: b, w1: b, w2: b, w3: b }
}

fn setup_bridge() -> PropertyBridge {
    PropertyBridge::new(alice(), vec![1, 2, 3], 2, 5, 100, 500_000)
}

fn make_metadata() -> PropertyMetadata {
    PropertyMetadata {
        location: String::from("Test Property"),
        size: 1000,
        legal_description: String::from("Test"),
        valuation: 100_000,
        documents_url: String::from("ipfs://test"),
    }
}

#[test]
fn test_constructor_works() {
    let bridge = setup_bridge();
    let config = bridge.get_config();
    assert_eq!(config.min_signatures_required, 2);
    assert_eq!(config.max_signatures_required, 5);
    assert_eq!(config.supported_chains, vec![1, 2, 3]);
    assert!(bridge.is_bridge_operator(alice()));
    assert_eq!(bridge.get_admin(), alice());
    let info = bridge.get_chain_info(2).unwrap();
    assert_eq!(info.chain_id, 2);
    assert!(info.is_active);
}

#[test]
fn test_initiate_bridge_multisig() {
    let mut bridge = setup_bridge();
    let result = bridge.initiate_bridge_multisig(alice(), 0, 0, 1, 2, bob(), 2, Some(50), make_metadata());
    assert_eq!(result, Ok(1));
    let info = bridge.monitor_bridge_status(1).unwrap();
    assert_eq!(info.status, BridgeOperationStatus::Pending);
    assert_eq!(info.expires_at, Some(50));
    assert_eq!(info.signatures_required, 2);
}

#[test]
fn initiate_rejects_bad_chain_and_signature_counts() {
    let mut bridge = setup_bridge();
    assert_eq!(
        bridge.initiate_bridge_multisig(alice(), 0, 0, 1, 9, bob(), 2, None, make_metadata()),
        Err(BridgeError::InvalidChain)
    );
    assert_eq!(
        bridge.initiate_bridge_multisig(alice(), 0, 0, 1, 2, bob(), 1, None, make_metadata()),
        Err(BridgeError::InsufficientSignatures)
    );
    assert_eq!(
        bridge.initiate_bridge_multisig(alice(), 0, 0, 1, 2, bob(), 6, None, make_metadata()),
        Err(BridgeError::InsufficientSignatures)
    );
}

#[test]
fn test_sign_bridge_request() {
    let mut bridge = setup_bridge();
    bridge.add_validator(alice(), alice()).expect("admin can add validator");
    let id = bridge.initiate_bridge_multisig(alice(), 0, 0, 1, 2, bob(), 2, Some(50), make_metadata()).unwrap();
    assert!(bridge.sign_bridge_request(alice(), 1, 0, id, true).is_ok());
    assert_eq!(bridge.monitor_bridge_status(id).unwrap().signatures_collected, 1);
}

#[test]
fn test_non_validator_cannot_sign() {
    let mut bridge = setup_bridge();
    let id = bridge.initiate_bridge_multisig(alice(), 0, 0, 1, 2, bob(), 2, Some(50), make_metadata()).unwrap();
    bridge.add_bridge_operator(alice(), bob()).expect("admin can add operator");
    assert_eq!(bridge.sign_bridge_request(bob(), 1, 0, id, true), Err(BridgeError::Unauthorized));
}

#[test]
fn test_threshold_enforced_at_execution() {
    let mut bridge = setup_bridge();
    bridge.add_validator(alice(), alice()).unwrap();
    bridge.add_validator(alice(), bob()).unwrap();
    bridge.add_bridge_operator(alice(), bob()).unwrap();
    let id = bridge.initiate_bridge_multisig(alice(), 0, 0, 1, 2, charlie(), 2, Some(50), make_metadata()).unwrap();
    bridge.sign_bridge_request(alice(), 1, 0, id, true).unwrap();
    assert_eq!(bridge.execute_bridge(alice(), 1, 0, id, h(9)), Err(BridgeError::InvalidRequest));
    bridge.sign_bridge_request(bob(), 1, 0, id, true).unwrap();
    assert_eq!(bridge.monitor_bridge_status(id).unwrap().status, BridgeOperationStatus::Locked);
    assert!(bridge.execute_bridge(alice(), 2, 0, id, h(9)).is_ok());
    assert_eq!(bridge.monitor_bridge_status(id).unwrap().status, BridgeOperationStatus::Completed);
    assert!(bridge.verify_bridge_transaction(h(9), 1));
}

#[test]
fn test_estimate_bridge_gas_respects_chain_profile() {
    let mut bridge = setup_bridge();
    let default_gas = bridge.estimate_bridge_gas(1, 2).expect("default chain should be estimable");
    assert_eq!(default_gas, 112_000);
    let tuned = ChainBridgeInfo {
        chain_id: 2,
        chain_name: String::from("High-Confirmation"),
        bridge_contract_address: None,
        is_active: true,
        gas_multiplier: 180,
        confirmation_blocks: 24,
        supported_tokens: Vec::new(),
        chain_daily_limit: 10_000_000_000_000_000_000,
    };
    bridge.update_chain_info(alice(), 2, tuned).expect("admin should update chain profile");
    let updated = bridge.estimate_bridge_gas(1, 2).unwrap();
    assert!(updated > default_gas);
    assert!(updated <= bridge.get_config().gas_limit_per_bridge);
    assert_eq!(updated, 223_200);
    assert_eq!(bridge.estimate_bridge_gas(1, 9), Err(BridgeError::InvalidChain));
}

#[test]
fn test_quote_cross_chain_trade_scales_with_amount() {
    let bridge = setup_bridge();
    let small = bridge.quote_cross_chain_trade(2, 50_000).expect("small quote should succeed");
    let large = bridge.quote_cross_chain_trade(2, 100_000).expect("large quote should succeed");
    assert!(small.total_fee >= small.protocol_fee);
    assert!(large.total_fee > small.total_fee);
    assert!(large.protocol_fee > small.protocol_fee);
    assert_eq!(small.protocol_fee, 250);
    assert_eq!(small.gas_estimate, 112_000);
    assert_eq!(small.total_fee, 250 + 11_800);
    assert_eq!(bridge.quote_cross_chain_trade(9, 1), Err(BridgeError::InvalidChain));
}

#[test]
fn test_cross_chain_trade_lifecycle() {
    let mut bridge = setup_bridge();
    let trade_id = bridge.register_cross_chain_trade(bob(), 0, 0, 9, Some(7), 2, charlie(), 50_000, 49_000).unwrap();
    let trade = bridge.get_cross_chain_trade(trade_id).unwrap();
    assert_eq!(trade.status, CrossChainTradeStatus::Pending);
    assert_eq!(trade.destination_chain, 2);
    assert_eq!(trade.trader, bob());
    assert_eq!(trade.bridge_fee_quote.protocol_fee, 250);
    assert_eq!(bridge.attach_bridge_request_to_trade(charlie(), trade_id, 33), Err(BridgeError::Unauthorized));
    bridge.attach_bridge_request_to_trade(bob(), trade_id, 33).expect("trader can attach bridge request");
    let attached = bridge.get_cross_chain_trade(trade_id).unwrap();
    assert_eq!(attached.bridge_request_id, Some(33));
    assert_eq!(attached.status, CrossChainTradeStatus::BridgeRequested);
    assert_eq!(bridge.settle_cross_chain_trade(bob(), trade_id), Err(BridgeError::Unauthorized));
    bridge.settle_cross_chain_trade(alice(), trade_id).expect("admin can settle trade");
    assert_eq!(bridge.get_cross_chain_trade(trade_id).unwrap().status, CrossChainTradeStatus::Settled);
    assert!(bridge.get_cross_chain_trade(99).is_none());
}

#[test]
fn cross_chain_trades_respect_daily_chain_limit() {
    let mut bridge = setup_bridge();
    let mut info = bridge.get_chain_info(2).unwrap();
    info.chain_daily_limit = 1_000;
    bridge.update_chain_info(alice(), 2, info).unwrap();
    assert!(bridge.register_cross_chain_trade(bob(), 0, 0, 1, None, 2, charlie(), 600, 1).is_ok());
    assert_eq!(
        bridge.register_cross_chain_trade(bob(), 0, 0, 1, None, 2, charlie(), 401, 1),
        Err(BridgeError::RateLimitExceeded)
    );
    assert!(bridge.register_cross_chain_trade(bob(), 0, 0, 1, None, 2, charlie(), 400, 1).is_ok());
    // a new day starts a new count
    assert!(bridge.register_cross_chain_trade(bob(), 0, 86_400_000, 1, None, 2, charlie(), 900, 1).is_ok());
    assert_eq!(
        bridge.register_cross_chain_trade(bob(), 0, 0, 1, None, 9, charlie(), 1, 1),
        Err(BridgeError::InvalidChain)
    );
}

#[test]
fn cross_chain_volume_breaker_pauses_trades() {
    let mut bridge = setup_bridge();
    let mut config = bridge.get_suspicious_config();
    config.max_volume_per_hour_per_chain = 1_000;
    bridge.update_suspicious_config(alice(), config).unwrap();
    assert!(bridge.register_cross_chain_trade(bob(), 0, 0, 1, None, 2, charlie(), 999, 1).is_ok());
    assert_eq!(
        bridge.register_cross_chain_trade(bob(), 0, 0, 1, None, 2, charlie(), 1, 1),
        Err(BridgeError::OperationPaused)
    );
    assert!(bridge.is_operation_paused(BridgeOperation::CrossChainTrade));
    assert!(!bridge.is_operation_paused(BridgeOperation::NewRequest));
    let log = bridge.get_pause_audit_log();
    assert_eq!(log.len(), 1);
    assert_eq!(log[0].reason, PauseReason::SuspiciousVolume);
    assert_eq!(log[0].detail, Some(String::from("Auto: chain hourly volume")));
    assert_eq!(
        bridge.register_cross_chain_trade(bob(), 0, 0, 1, None, 2, charlie(), 1, 1),
        Err(BridgeError::OperationPaused)
    );
}

#[test]
fn property_execution_requires_minimum_signatures() {
    let mut bridge = setup_bridge();
    bridge.add_validator(alice(), alice()).unwrap();
    let id = bridge.initiate_bridge_multisig(alice(), 0, 0, 1, 2, bob(), 2, None, make_metadata()).unwrap();
    assert!(bridge.execute_bridge(alice(), 0, 0, id, h(1)).is_err());
    bridge.sign_bridge_request(alice(), 0, 0, id, true).unwrap();
    assert!(bridge.execute_bridge(alice(), 0, 0, id, h(1)).is_err());
}

#[test]
fn property_no_duplicate_signatures() {
    let mut bridge = setup_bridge();
    bridge.add_validator(alice(), alice()).unwrap();
    let id = bridge.initiate_bridge_multisig(alice(), 0, 0, 1, 2, bob(), 2, None, make_metadata()).unwrap();
    bridge.sign_bridge_request(alice(), 0, 0, id, true).unwrap();
    assert_eq!(bridge.sign_bridge_request(alice(), 0, 0, id, true), Err(BridgeError::AlreadySigned));
}

#[test]
fn property_expired_request_rejects_signatures() {
    let mut bridge = setup_bridge();
    bridge.add_validator(alice(), alice()).unwrap();
    let id = bridge.initiate_bridge_multisig(alice(), 0, 0, 1, 2, bob(), 2, Some(1), make_metadata()).unwrap();
    assert_eq!(bridge.sign_bridge_request(alice(), 2, 0, id, true), Err(BridgeError::RequestExpired));
}

#[test]
fn property_no_double_execution() {
    let mut bridge = setup_bridge();
    bridge.add_validator(alice(), alice()).unwrap();
    bridge.add_validator(alice(), bob()).unwrap();
    let id = bridge.initiate_bridge_multisig(alice(), 0, 0, 1, 2, bob(), 2, None, make_metadata()).unwrap();
    bridge.sign_bridge_request(alice(), 0, 0, id, true).unwrap();
    bridge.sign_bridge_request(bob(), 0, 0, id, true).unwrap();
    let first = bridge.execute_bridge(alice(), 0, 0, id, h(3));
    assert!(first.is_ok());
    assert!(bridge.execute_bridge(alice(), 0, 0, id, h(4)).is_err());
}

#[test]
fn cross_chain_status_initialized_on_initiate() {
    let mut bridge = setup_bridge();
    let id = bridge.initiate_bridge_multisig(alice(), 7, 70, 1, 2, bob(), 2, Some(50), make_metadata()).unwrap();
    let tracker = bridge.get_cross_chain_tx_status(id).expect("tracker should exist after initiate");
    assert_eq!(tracker.request_id, id);
    assert_eq!(tracker.destination_chain, 2);
    assert_eq!(tracker.source_status.status, ChainTxStatus::Submitted);
    assert_eq!(tracker.source_status.block_number, 7);
    assert_eq!(tracker.destination_status.status, ChainTxStatus::NotStarted);
    assert_eq!(tracker.overall_status, BridgeOperationStatus::Pending);
    assert_eq!(bridge.get_tx_status_history(id).len(), 1);
}

#[test]
fn update_chain_tx_status_advances_destination_leg() {
    let mut bridge = setup_bridge();
    let id = bridge.initiate_bridge_multisig(alice(), 0, 0, 1, 2, bob(), 2, Some(50), make_metadata()).unwrap();
    bridge.update_chain_tx_status(alice(), 1, id, 2, ChainTxStatus::Submitted, None, 100, 0, None).unwrap();
    bridge.update_chain_tx_status(alice(), 2, id, 2, ChainTxStatus::Confirming, None, 101, 3, None).unwrap();
    let dest = bridge.get_chain_status(id, 2).expect("destination status");
    assert_eq!(dest.status, ChainTxStatus::Confirming);
    assert_eq!(dest.confirmations, 3);
    assert!(bridge.get_tx_status_history(id).len() >= 3);
    assert!(bridge.get_chain_status(id, 9).is_none());
}

#[test]
fn confirm_destination_delivery_completes_overall_status() {
    let mut bridge = setup_bridge();
    bridge.add_validator(alice(), alice()).unwrap();
    let id = bridge.initiate_bridge_multisig(alice(), 0, 0, 1, 2, bob(), 2, None, make_metadata()).unwrap();
    bridge.sign_bridge_request(alice(), 0, 0, id, true).unwrap();
    bridge.add_validator(alice(), charlie()).unwrap();
    bridge.sign_bridge_request(charlie(), 0, 0, id, true).unwrap();
    bridge.execute_bridge(alice(), 1, 10, id, h(5)).expect("execute");
    let mid = bridge.get_cross_chain_tx_status(id).unwrap();
    assert_eq!(mid.source_status.status, ChainTxStatus::Confirmed);
    assert_eq!(mid.destination_status.status, ChainTxStatus::Submitted);
    assert_eq!(mid.overall_status, BridgeOperationStatus::InTransit);
    bridge.confirm_destination_delivery(alice(), 20, id, h(7), 200, 12).expect("confirm destination");
    let done = bridge.get_cross_chain_tx_status(id).unwrap();
    assert_eq!(done.destination_status.status, ChainTxStatus::Confirmed);
    assert_eq!(done.destination_status.tx_hash, Some(h(7)));
    assert_eq!(done.overall_status, BridgeOperationStatus::Completed);
    assert_eq!(bridge.get_tx_status_by_hash(h(7)).unwrap().request_id, id);
    assert_eq!(bridge.get_tx_status_by_hash(h(5)).unwrap().request_id, id);
    assert_eq!(
        bridge.confirm_destination_delivery(alice(), 20, 999, h(7), 200, 12),
        Err(BridgeError::TransactionNotFound)
    );
}

#[test]
fn invalid_chain_id_rejected() {
    let mut bridge = setup_bridge();
    let id = bridge.initiate_bridge_multisig(alice(), 0, 0, 1, 2, bob(), 2, None, make_metadata()).unwrap();
    let err = bridge.update_chain_tx_status(alice(), 0, id, 999, ChainTxStatus::Submitted, None, 0, 0, None).unwrap_err();
    assert_eq!(err, BridgeError::InvalidChain);
}

#[test]
fn invalid_status_transition_rejected() {
    let mut bridge = setup_bridge();
    let id = bridge.initiate_bridge_multisig(alice(), 0, 0, 1, 2, bob(), 2, None, make_metadata()).unwrap();
    bridge.update_chain_tx_status(alice(), 0, id, 2, ChainTxStatus::Submitted, None, 100, 0, None).unwrap();
    bridge.update_chain_tx_status(alice(), 0, id, 2, ChainTxStatus::Confirmed, None, 101, 12, None).unwrap();
    let err = bridge.update_chain_tx_status(alice(), 0, id, 2, ChainTxStatus::Submitted, None, 102, 0, None).unwrap_err();
    assert_eq!(err, BridgeError::InvalidStatusTransition);
}

#[test]
fn unauthorized_caller_cannot_update_status() {
    let mut bridge = setup_bridge();
    let id = bridge.initiate_bridge_multisig(alice(), 0, 0, 1, 2, bob(), 2, None, make_metadata()).unwrap();
    let err = bridge.update_chain_tx_status(bob(), 0, id, 2, ChainTxStatus::Submitted, None, 0, 0, None).unwrap_err();
    assert_eq!(err, BridgeError::Unauthorized);
}

#[test]
fn rollback_marks_both_legs_failed() {
    let mut bridge = setup_bridge();
    let id = bridge.initiate_bridge_multisig(alice(), 0, 0, 1, 2, bob(), 2, None, make_metadata()).unwrap();
    assert_eq!(
        bridge.rollback_bridge_transaction(bob(), 3, 30, id, String::from("manual rollback")),
        Err(BridgeError::Unauthorized)
    );
    bridge.rollback_bridge_transaction(alice(), 3, 30, id, String::from("manual rollback")).expect("rollback");
    let tracker = bridge.get_cross_chain_tx_status(id).unwrap();
    assert_eq!(tracker.source_status.status, ChainTxStatus::Failed);
    assert_eq!(tracker.destination_status.status, ChainTxStatus::Failed);
    assert_eq!(tracker.source_status.error_message, Some(String::from("Bridge rollback")));
    assert_eq!(tracker.overall_status, BridgeOperationStatus::Failed);
    assert_eq!(bridge.get_tx_status_history(id).len(), 3);
    assert_eq!(bridge.monitor_bridge_status(id).unwrap().status, BridgeOperationStatus::Failed);
    assert_eq!(bridge.monitor_bridge_status(id).unwrap().signatures_collected, 0);
}

#[test]
fn completed_request_cannot_be_rolled_back() {
    let mut bridge = setup_bridge();
    bridge.add_validator(alice(), alice()).unwrap();
    bridge.add_validator(alice(), bob()).unwrap();
    let id = bridge.initiate_bridge_multisig(alice(), 0, 0, 1, 2, bob(), 2, None, make_metadata()).unwrap();
    bridge.sign_bridge_request(alice(), 0, 0, id, true).unwrap();
    bridge.sign_bridge_request(bob(), 0, 0, id, true).unwrap();
    bridge.execute_bridge(alice(), 0, 0, id, h(3)).unwrap();
    assert_eq!(
        bridge.rollback_bridge_transaction(alice(), 1, 1, id, String::from("late")),
        Err(BridgeError::InvalidRequest)
    );
}

#[test]
fn recovery_retries_failed_request() {
    let mut bridge = setup_bridge();
    bridge.add_validator(alice(), alice()).unwrap();
    bridge.add_validator(alice(), bob()).unwrap();
    let id = bridge.initiate_bridge_multisig(alice(), 0, 0, 1, 2, bob(), 2, None, make_metadata()).unwrap();
    assert_eq!(bridge.recover_failed_bridge(alice(), id, RecoveryAction::RetryBridge), Err(BridgeError::InvalidRequest));
    bridge.sign_bridge_request(alice(), 0, 0, id, false).unwrap();
    assert_eq!(bridge.monitor_bridge_status(id).unwrap().status, BridgeOperationStatus::Failed);
    assert_eq!(bridge.recover_failed_bridge(bob(), id, RecoveryAction::RetryBridge), Err(BridgeError::Unauthorized));
    bridge.recover_failed_bridge(alice(), id, RecoveryAction::RefundGas).unwrap();
    assert_eq!(bridge.monitor_bridge_status(id).unwrap().status, BridgeOperationStatus::Failed);
    bridge.recover_failed_bridge(alice(), id, RecoveryAction::RetryBridge).unwrap();
    let info = bridge.monitor_bridge_status(id).unwrap();
    assert_eq!(info.status, BridgeOperationStatus::Pending);
    assert_eq!(info.signatures_collected, 0);
    // the request can now be signed again by the same validators
    bridge.sign_bridge_request(alice(), 0, 0, id, true).unwrap();
    bridge.sign_bridge_request(bob(), 0, 0, id, true).unwrap();
    assert!(bridge.execute_bridge(alice(), 0, 0, id, h(8)).is_ok());
}

#[test]
fn unknown_request_returns_transaction_not_found() {
    let mut bridge = setup_bridge();
    let err = bridge.update_chain_tx_status(alice(), 0, 999_999, 2, ChainTxStatus::Submitted, None, 0, 0, None).unwrap_err();
    assert_eq!(err, BridgeError::TransactionNotFound);
}

#[test]
fn bitmap_signature_count_matches_monitoring_count() {
    let mut bridge = setup_bridge();
    bridge.add_validator(alice(), alice()).unwrap();
    bridge.add_validator(alice(), bob()).unwrap();
    bridge.add_validator(alice(), charlie()).unwrap();
    let id = bridge.initiate_bridge_multisig(alice(), 0, 0, 7, 2, eve(), 3, Some(50), make_metadata()).unwrap();
    for signer in [alice(), bob(), charlie()] {
        bridge.sign_bridge_request(signer, 0, 0, id, true).unwrap();
    }
    let monitoring = bridge.monitor_bridge_status(id).unwrap();
    assert_eq!(monitoring.signatures_collected, 3);
    assert_eq!(monitoring.token_id, 7);
    assert!(!bridge.is_validator(django()));
}

#[test]
fn pausing_and_unpausing_signing() {
    let mut bridge = setup_bridge();
    bridge.add_validator(alice(), alice()).unwrap();
    let id = bridge.initiate_bridge_multisig(alice(), 0, 0, 1, 2, bob(), 2, None, make_metadata()).unwrap();
    let flags = PauseFlags { all_operations: false, new_requests: false, signing: true, execution: false, cross_chain_trades: false };
    bridge.emergency_pause(alice(), 1, 1, flags, PauseReason::ManualAdmin, None).unwrap();
    assert_eq!(bridge.sign_bridge_request(alice(), 0, 0, id, true), Err(BridgeError::OperationPaused));
    bridge.emergency_unpause(alice(), 2, 2, flags).unwrap();
    assert!(bridge.sign_bridge_request(alice(), 0, 0, id, true).is_ok());
    assert_eq!(bridge.get_pause_audit_log().len(), 2);
}

#[test]
fn bridge_errors_have_texts() {
    assert_eq!(BridgeError::RequestExpired.to_string(), "Bridge request has expired");
    assert_eq!(BridgeError::Unauthorized.error_description(), "Caller does not have permission to perform this operation");
    assert_eq!(BridgeError::ReentrantCall.to_string(), "Reentrant call");
}

#[test]
fn executed_transfer_joins_sender_history() {
    let mut bridge = setup_bridge();
    bridge.add_validator(alice(), alice()).unwrap();
    bridge.add_validator(alice(), bob()).unwrap();
    let id = bridge.initiate_bridge_multisig(alice(), 0, 7, 1, 2, charlie(), 2, Some(50), make_metadata()).unwrap();
    assert!(bridge.get_bridge_history(alice()).is_empty());
    bridge.sign_bridge_request(alice(), 1, 7, id, true).unwrap();
    bridge.sign_bridge_request(bob(), 1, 7, id, true).unwrap();
    bridge.execute_bridge(alice(), 2, 42, id, h(6)).unwrap();
    let history = bridge.get_bridge_history(alice());
    assert_eq!(history.len(), 1);
    let t = &history[0];
    assert_eq!(t.transaction_id, 1);
    assert_eq!(t.token_id, 1);
    assert_eq!(t.destination_chain, 2);
    assert_eq!(t.recipient, charlie());
    assert_eq!(t.transaction_hash, h(6));
    assert_eq!(t.timestamp, 42);
    assert_eq!(t.gas_used, 100_400);
    assert_eq!(t.status, BridgeOperationStatus::InTransit);
    assert_eq!(t.metadata.legal_description, "Test");
    assert!(bridge.get_bridge_history(charlie()).is_empty());
}

#[test]
fn only_operators_register_public_keys() {
    let mut bridge = setup_bridge();
    let key = [2u8; 33];
    assert!(bridge.register_operator_public_key(alice(), key).is_ok());
    assert_eq!(bridge.register_operator_public_key(bob(), key), Err(BridgeError::Unauthorized));
    bridge.add_bridge_operator(alice(), bob()).unwrap();
    assert!(bridge.register_operator_public_key(bob(), [3u8; 33]).is_ok());
}
