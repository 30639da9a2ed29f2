use lib::common::{AccountId, Hash32};
use lib::escrow::{
    AdvancedEscrow, ApprovalType, EscrowError, EscrowStatus, LargeTransferStatus, TransferApprovalTier,
};

fn alice() -> AccountId {
    AccountId::from_byte(1)
}
fn bob() -> AccountId {
    AccountId::from_byte(2)
}
fn charlie() -> AccountId {
    AccountId::from_byte(3)
}
fn django() -> AccountId {
    AccountId::from_byte(4)
}

fn doc(b: u64) -> Hash32 {
    Hash32 { w0: b, w1: b, w2: b, w3: b }
}

/// The total paid to `to` so far.
fn paid_to(c: &AdvancedEscrow, to: AccountId) -> u128 {
    c.pending_payouts().iter().filter(|(a, _)| *a == to).map(|(_, v)| *v).sum()
}

fn two_party(c: &mut AdvancedEscrow, property_id: u64, amount: u128) -> u64 {
    c.create_escrow_advanced(alice(), 0, property_id, amount, alice(), bob(), vec![alice(), bob()], 2, None).unwrap()
}

fn funded_and_signed(c: &mut AdvancedEscrow, amount: u128) -> u64 {
    let id = two_party(c, 1, amount);
    c.deposit_funds(alice(), 0, amount, id).unwrap();
    c.sign_approval(alice(), id, ApprovalType::Release).unwrap();
    c.sign_approval(bob(), id, ApprovalType::Release).unwrap();
    id
}

#[test]
fn test_new_contract() {
    let contract = AdvancedEscrow::new(alice(), 1_000_000, None);
    assert_eq!(contract.get_high_value_threshold(), 1_000_000);
    assert_eq!(contract.get_admin(), alice());
    assert_eq!(contract.get_balance(), 0);
}

#[test]
fn test_set_tax_compliance_contract() {
    let mut contract = AdvancedEscrow::new(alice(), 1_000_000, None);
    assert!(contract.set_tax_compliance_contract(alice(), Some(charlie())).is_ok());
    assert_eq!(contract.set_tax_compliance_contract(bob(), None), Err(EscrowError::Unauthorized));
}

#[test]
fn test_create_escrow_advanced() {
    let mut contract = AdvancedEscrow::new(alice(), 1_000_000, None);
    let result = contract.create_escrow_advanced(alice(), 5, 1, 1_000_000, alice(), bob(), vec![alice(), bob(), charlie()], 2, None);
    assert_eq!(result, Ok(1));
    let escrow = contract.get_escrow(1).unwrap();
    assert_eq!(escrow.property_id, 1);
    assert_eq!(escrow.amount, 1_000_000);
    assert_eq!(escrow.buyer, alice());
    assert_eq!(escrow.seller, bob());
    assert_eq!(escrow.status, EscrowStatus::Created);
    assert_eq!(escrow.created_at, 5);
    assert_eq!(escrow.participants, vec![alice(), bob(), charlie()]);
    let analytics = contract.get_escrow_analytics();
    assert_eq!(analytics.total_created, 1);
    assert_eq!(analytics.total_active, 1);
    assert_eq!(analytics.total_volume, 1_000_000);
    assert_eq!(analytics.average_escrow_amount, 1_000_000);
    assert_eq!(analytics.unique_participants, 2);
}

#[test]
fn test_create_escrow_invalid_config() {
    let mut contract = AdvancedEscrow::new(alice(), 1_000_000, None);
    let result = contract.create_escrow_advanced(alice(), 0, 1, 1_000_000, alice(), bob(), vec![alice(), bob()], 3, None);
    assert_eq!(result, Err(EscrowError::InvalidConfiguration));
    let result = contract.create_escrow_advanced(alice(), 0, 1, 1_000_000, alice(), bob(), vec![alice(), bob()], 0, None);
    assert_eq!(result, Err(EscrowError::InvalidConfiguration));
    let result = contract.create_escrow_advanced(alice(), 0, 1, 1_000_000, alice(), bob(), vec![], 1, None);
    assert_eq!(result, Err(EscrowError::InvalidConfiguration));
    assert!(contract.get_escrow(1).is_none());
}

#[test]
fn test_deposit_funds() {
    let mut contract = AdvancedEscrow::new(alice(), 1_000_000, None);
    let id = two_party(&mut contract, 1, 1_000_000);
    assert!(contract.deposit_funds(alice(), 0, 400_000, id).is_ok());
    assert_eq!(contract.get_escrow(id).unwrap().status, EscrowStatus::Funded);
    assert!(contract.deposit_funds(alice(), 0, 600_000, id).is_ok());
    let escrow = contract.get_escrow(id).unwrap();
    assert_eq!(escrow.deposited_amount, 1_000_000);
    assert_eq!(escrow.status, EscrowStatus::Active);
    assert_eq!(contract.get_balance(), 1_000_000);
    // an active escrow takes no more deposits
    assert_eq!(contract.deposit_funds(alice(), 0, 1, id), Err(EscrowError::InvalidStatus));
    assert_eq!(contract.deposit_funds(alice(), 0, 1, 99), Err(EscrowError::EscrowNotFound));
}

#[test]
fn test_upload_document() {
    let mut contract = AdvancedEscrow::new(alice(), 1_000_000, None);
    let id = two_party(&mut contract, 1, 1_000_000);
    let result = contract.upload_document(alice(), 7, id, doc(1), "Title Deed".to_string());
    assert!(result.is_ok());
    let documents = contract.get_documents(id);
    assert_eq!(documents.len(), 1);
    assert_eq!(documents[0].hash, doc(1));
    assert_eq!(documents[0].document_type, "Title Deed");
    assert_eq!(documents[0].uploaded_by, alice());
    assert_eq!(documents[0].uploaded_at, 7);
    assert!(!documents[0].verified);
}

#[test]
fn test_verify_document() {
    let mut contract = AdvancedEscrow::new(alice(), 1_000_000, None);
    let id = two_party(&mut contract, 1, 1_000_000);
    contract.upload_document(alice(), 0, id, doc(1), "Title Deed".to_string()).unwrap();
    assert_eq!(contract.verify_document(alice(), id, doc(2)), Err(EscrowError::DocumentNotFound));
    assert!(contract.verify_document(alice(), id, doc(1)).is_ok());
    assert!(contract.get_documents(id)[0].verified);
}

#[test]
fn test_add_condition() {
    let mut contract = AdvancedEscrow::new(alice(), 1_000_000, None);
    let id = two_party(&mut contract, 1, 1_000_000);
    let result = contract.add_condition(alice(), 0, id, "Property inspection completed".to_string());
    assert_eq!(result, Ok(1));
    let conditions = contract.get_conditions(id);
    assert_eq!(conditions.len(), 1);
    assert_eq!(conditions[0].description, "Property inspection completed");
    assert!(!conditions[0].met);
}

#[test]
fn test_mark_condition_met() {
    let mut contract = AdvancedEscrow::new(alice(), 1_000_000, None);
    let id = two_party(&mut contract, 1, 1_000_000);
    let cond = contract.add_condition(alice(), 0, id, "Property inspection completed".to_string()).unwrap();
    assert!(contract.mark_condition_met(alice(), 42, id, cond).is_ok());
    let conditions = contract.get_conditions(id);
    assert!(conditions[0].met);
    assert_eq!(conditions[0].verified_by, Some(alice()));
    assert_eq!(conditions[0].verified_at, Some(42));
    assert_eq!(contract.mark_condition_met(alice(), 42, id, 9), Err(EscrowError::ConditionNotFound));
}

#[test]
fn test_sign_approval() {
    let mut contract = AdvancedEscrow::new(alice(), 1_000_000, None);
    let id = two_party(&mut contract, 1, 1_000_000);
    assert!(contract.sign_approval(alice(), id, ApprovalType::Release).is_ok());
    assert_eq!(contract.get_signature_count(id, ApprovalType::Release), 1);
    assert!(contract.has_signed(id, ApprovalType::Release, alice()));
    assert!(!contract.has_signed(id, ApprovalType::Release, bob()));
    assert!(contract.sign_approval(bob(), id, ApprovalType::Release).is_ok());
    assert_eq!(contract.get_signature_count(id, ApprovalType::Release), 2);
    assert_eq!(contract.get_signature_count(id, ApprovalType::Refund), 0);
    // an outsider may not sign
    assert_eq!(contract.sign_approval(charlie(), id, ApprovalType::Release), Err(EscrowError::Unauthorized));
}

#[test]
fn test_sign_approval_already_signed() {
    let mut contract = AdvancedEscrow::new(alice(), 1_000_000, None);
    let id = two_party(&mut contract, 1, 1_000_000);
    contract.sign_approval(alice(), id, ApprovalType::Release).unwrap();
    assert_eq!(contract.sign_approval(alice(), id, ApprovalType::Release), Err(EscrowError::AlreadySigned));
    assert_eq!(contract.get_signature_count(id, ApprovalType::Release), 1);
}

#[test]
fn test_raise_dispute() {
    let mut contract = AdvancedEscrow::new(alice(), 1_000_000, None);
    let id = two_party(&mut contract, 1, 1_000_000);
    let result = contract.raise_dispute(alice(), 3, id, "Property condition not as described".to_string());
    assert!(result.is_ok());
    let dispute = contract.get_dispute(id).unwrap();
    assert_eq!(dispute.raised_by, alice());
    assert_eq!(dispute.reason, "Property condition not as described");
    assert!(!dispute.resolved);
    assert_eq!(contract.get_escrow(id).unwrap().status, EscrowStatus::Disputed);
    // a second dispute while one is open
    assert_eq!(contract.raise_dispute(bob(), 4, id, "Again".to_string()), Err(EscrowError::DisputeActive));
}

#[test]
fn test_resolve_dispute() {
    let mut contract = AdvancedEscrow::new(alice(), 1_000_000, None);
    let admin = contract.get_admin();
    let id = two_party(&mut contract, 1, 1_000_000);
    contract.raise_dispute(alice(), 0, id, "Issue".to_string()).unwrap();
    let result = contract.resolve_dispute(admin, id, "Resolved in favor of buyer".to_string());
    assert!(result.is_ok());
    let dispute = contract.get_dispute(id).unwrap();
    assert!(dispute.resolved);
    assert_eq!(dispute.resolution, Some("Resolved in favor of buyer".to_string()));
    assert_eq!(contract.get_escrow(id).unwrap().status, EscrowStatus::Active);
}

#[test]
fn test_resolve_dispute_unauthorized() {
    let mut contract = AdvancedEscrow::new(alice(), 1_000_000, None);
    let id = two_party(&mut contract, 1, 1_000_000);
    contract.raise_dispute(alice(), 0, id, "Issue".to_string()).unwrap();
    assert_eq!(contract.resolve_dispute(bob(), id, "Resolution".to_string()), Err(EscrowError::Unauthorized));
}

#[test]
fn test_check_all_conditions_met() {
    let mut contract = AdvancedEscrow::new(alice(), 1_000_000, None);
    let id = two_party(&mut contract, 1, 1_000_000);
    assert_eq!(contract.check_all_conditions_met(id), Ok(true));
    let cond1 = contract.add_condition(alice(), 0, id, "Condition 1".to_string()).unwrap();
    let cond2 = contract.add_condition(alice(), 0, id, "Condition 2".to_string()).unwrap();
    assert_eq!(contract.check_all_conditions_met(id), Ok(false));
    contract.mark_condition_met(alice(), 0, id, cond1).unwrap();
    assert_eq!(contract.check_all_conditions_met(id), Ok(false));
    contract.mark_condition_met(alice(), 0, id, cond2).unwrap();
    assert_eq!(contract.check_all_conditions_met(id), Ok(true));
}

#[test]
fn test_set_admin() {
    let mut contract = AdvancedEscrow::new(alice(), 1_000_000, None);
    assert_eq!(contract.get_admin(), alice());
    assert!(contract.set_admin(alice(), bob()).is_ok());
    assert_eq!(contract.get_admin(), bob());
}

#[test]
fn test_set_admin_unauthorized() {
    let mut contract = AdvancedEscrow::new(alice(), 1_000_000, None);
    assert_eq!(contract.set_admin(bob(), charlie()), Err(EscrowError::Unauthorized));
    assert_eq!(contract.get_admin(), alice());
}

#[test]
fn test_multi_sig_config() {
    let mut contract = AdvancedEscrow::new(alice(), 1_000_000, None);
    let participants = vec![alice(), bob(), charlie()];
    let id = contract.create_escrow_advanced(alice(), 0, 1, 1_000_000, alice(), bob(), participants.clone(), 2, None).unwrap();
    let config = contract.get_multi_sig_config(id).unwrap();
    assert_eq!(config.required_signatures, 2);
    assert_eq!(config.signers, participants);
}

#[test]
fn release_pays_seller_and_closes() {
    let mut contract = AdvancedEscrow::new(alice(), 1_000_000, None);
    let id = funded_and_signed(&mut contract, 1_000_000);
    assert!(contract.release_funds(alice(), 1, 99, id, None).is_ok());
    let e = contract.get_escrow(id).unwrap();
    assert_eq!(e.status, EscrowStatus::Released);
    assert_eq!(e.completed_at, Some(99));
    assert_eq!(paid_to(&contract, bob()), 1_000_000);
    assert_eq!(contract.get_balance(), 0);
    // a second release is refused and pays nothing
    assert_eq!(contract.release_funds(alice(), 1, 100, id, None), Err(EscrowError::InvalidStatus));
    assert_eq!(paid_to(&contract, bob()), 1_000_000);
}

#[test]
fn release_needs_signatures_and_conditions() {
    let mut contract = AdvancedEscrow::new(alice(), 1_000_000, None);
    let id = two_party(&mut contract, 1, 1_000);
    assert_eq!(contract.release_funds(alice(), 1, 1, id, None), Err(EscrowError::InvalidStatus));
    contract.deposit_funds(alice(), 0, 1_000, id).unwrap();
    let cond = contract.add_condition(alice(), 0, id, "Inspection".to_string()).unwrap();
    contract.sign_approval(alice(), id, ApprovalType::Release).unwrap();
    assert_eq!(contract.release_funds(alice(), 1, 1, id, None), Err(EscrowError::ConditionsNotMet));
    contract.mark_condition_met(bob(), 1, id, cond).unwrap();
    assert_eq!(contract.release_funds(alice(), 1, 1, id, None), Err(EscrowError::SignatureThresholdNotMet));
    contract.sign_approval(bob(), id, ApprovalType::Release).unwrap();
    assert!(contract.release_funds(alice(), 1, 1, id, None).is_ok());
}

#[test]
fn release_waits_for_time_lock() {
    let mut contract = AdvancedEscrow::new(alice(), 1_000_000, None);
    let id = contract.create_escrow_advanced(alice(), 0, 1, 500, alice(), bob(), vec![alice()], 1, Some(1_000)).unwrap();
    contract.deposit_funds(alice(), 0, 500, id).unwrap();
    contract.sign_approval(alice(), id, ApprovalType::Release).unwrap();
    assert_eq!(contract.release_funds(alice(), 1, 999, id, None), Err(EscrowError::TimeLockActive));
    assert!(contract.release_funds(alice(), 1, 1_000, id, None).is_ok());
}

#[test]
fn refund_returns_deposit_to_buyer() {
    let mut contract = AdvancedEscrow::new(alice(), 1_000_000, None);
    let id = two_party(&mut contract, 1, 2_000);
    contract.deposit_funds(alice(), 0, 2_000, id).unwrap();
    contract.sign_approval(alice(), id, ApprovalType::Refund).unwrap();
    assert_eq!(contract.refund_funds(alice(), 1, 5, id), Err(EscrowError::SignatureThresholdNotMet));
    contract.sign_approval(bob(), id, ApprovalType::Refund).unwrap();
    assert!(contract.refund_funds(alice(), 1, 5, id).is_ok());
    assert_eq!(contract.get_escrow(id).unwrap().status, EscrowStatus::Refunded);
    assert_eq!(paid_to(&contract, alice()), 2_000);
    assert_eq!(contract.refund_funds(alice(), 1, 6, id), Err(EscrowError::InvalidStatus));
}

fn large_setup(required: u8) -> (AdvancedEscrow, u64) {
    let mut contract = AdvancedEscrow::new(alice(), 1_000_000, None);
    contract.set_large_transfer_thresholds(alice(), 5_000_000_000_000_000, 50_000_000_000_000_000).unwrap();
    let amount = 10_000_000_000_000_000u128;
    let id = contract
        .create_escrow_advanced(alice(), 0, 1, amount, alice(), bob(), vec![alice(), bob(), charlie()], required, None)
        .unwrap();
    contract.deposit_funds(alice(), 0, amount, id).unwrap();
    (contract, id)
}

#[test]
fn test_large_transfer_expires_before_approval() {
    let (mut contract, id) = large_setup(2);
    contract.sign_approval(alice(), id, ApprovalType::Release).unwrap();
    contract.sign_approval(bob(), id, ApprovalType::Release).unwrap();
    assert_eq!(contract.release_funds(bob(), 10, 0, id, None), Err(EscrowError::LargeTransferApprovalRequired));
    let request_id = contract.get_active_large_transfer_request(id);
    assert!(request_id > 0);
    let request = contract.get_large_transfer_request(request_id).unwrap();
    assert_eq!(request.escrow_id, id);
    assert_eq!(request.status, LargeTransferStatus::Pending);
    assert_eq!(request.tier, TransferApprovalTier::Large);
    assert_eq!(request.required_approvals, 2);
    assert_eq!(request.recipient, bob());

    let late = (request.expires_at_block + 1) as u32;
    assert_eq!(contract.approve_large_transfer(alice(), late, request_id), Err(EscrowError::ApprovalRequestExpired));
    let expired = contract.get_large_transfer_request(request_id).unwrap();
    assert_eq!(expired.status, LargeTransferStatus::Expired);
    assert_eq!(contract.get_active_large_transfer_request(id), 0);
}

#[test]
fn test_concurrent_large_transfer_approvals() {
    let (mut contract, id) = large_setup(3);
    contract.sign_approval(alice(), id, ApprovalType::Release).unwrap();
    contract.sign_approval(bob(), id, ApprovalType::Release).unwrap();
    contract.sign_approval(charlie(), id, ApprovalType::Release).unwrap();
    assert_eq!(contract.release_funds(charlie(), 10, 0, id, None), Err(EscrowError::LargeTransferApprovalRequired));
    let request_id = contract.get_active_large_transfer_request(id);
    assert!(request_id > 0);
    contract.approve_large_transfer(alice(), 11, request_id).unwrap();
    contract.approve_large_transfer(bob(), 11, request_id).unwrap();
    let approved = contract.get_large_transfer_request(request_id).unwrap();
    assert_eq!(approved.status, LargeTransferStatus::Approved);
    assert_eq!(approved.approvals.len(), 2);
    assert!(approved.approvals.contains(&alice()));
    assert!(approved.approvals.contains(&bob()));
    contract.approve_large_transfer(charlie(), 12, request_id).unwrap();
    assert_eq!(contract.get_large_transfer_request(request_id).unwrap().approvals.len(), 3);

    // the approved transfer can now be carried out
    assert!(contract.execute_large_transfer(13, 77, request_id).is_ok());
    assert_eq!(contract.get_large_transfer_request(request_id).unwrap().status, LargeTransferStatus::Executed);
    let e = contract.get_escrow(id).unwrap();
    assert_eq!(e.status, EscrowStatus::Released);
    assert_eq!(paid_to(&contract, bob()), 10_000_000_000_000_000);
    assert_eq!(contract.get_active_large_transfer_request(id), 0);
}

#[test]
fn test_cancel_and_recreate_large_transfer() {
    let (mut contract, id) = large_setup(2);
    contract.sign_approval(alice(), id, ApprovalType::Release).unwrap();
    contract.sign_approval(bob(), id, ApprovalType::Release).unwrap();
    assert_eq!(contract.release_funds(bob(), 10, 0, id, None), Err(EscrowError::LargeTransferApprovalRequired));
    let request_id = contract.get_active_large_transfer_request(id);
    assert!(request_id > 0);
    contract.cancel_large_transfer(alice(), request_id).unwrap();
    assert_eq!(contract.get_large_transfer_request(request_id).unwrap().status, LargeTransferStatus::Cancelled);
    assert_eq!(contract.get_active_large_transfer_request(id), 0);

    assert_eq!(contract.release_funds(bob(), 10, 0, id, None), Err(EscrowError::LargeTransferApprovalRequired));
    let new_request_id = contract.get_active_large_transfer_request(id);
    assert!(new_request_id > 0);
    assert_ne!(new_request_id, request_id);
    let new_request = contract.get_large_transfer_request(new_request_id).unwrap();
    assert_eq!(new_request.status, LargeTransferStatus::Pending);
    assert_eq!(new_request.escrow_id, id);
}

#[test]
fn test_fee_enabled_and_disabled() {
    let mut contract = AdvancedEscrow::new(alice(), 1_000_000, None);
    let id_no_fee = funded_and_signed(&mut contract, 1_000_000);
    contract.release_funds(bob(), 1, 1, id_no_fee, None).unwrap();
    assert_eq!(paid_to(&contract, bob()), 1_000_000);

    contract.set_fee_rate(alice(), 100).unwrap();
    contract.set_fee_recipient(alice(), Some(charlie())).unwrap();
    let id_fee = funded_and_signed(&mut contract, 1_000_000);
    contract.release_funds(bob(), 1, 1, id_fee, None).unwrap();
    assert_eq!(paid_to(&contract, charlie()), 10_000);
    assert_eq!(paid_to(&contract, bob()), 1_000_000 + 990_000);
}

#[test]
fn fee_rate_above_whole_is_refused() {
    let mut contract = AdvancedEscrow::new(alice(), 1_000_000, None);
    assert_eq!(contract.set_fee_rate(alice(), 10_001), Err(EscrowError::InvalidFeeAmount));
    assert_eq!(contract.set_fee_rate(bob(), 10), Err(EscrowError::Unauthorized));
    assert!(contract.set_fee_rate(alice(), 10_000).is_ok());
}

#[test]
fn test_tax_withholding_on_release() {
    let mut contract = AdvancedEscrow::new(alice(), 1_000_000, Some(django()));
    let id = funded_and_signed(&mut contract, 1_000_000);
    assert_eq!(contract.get_escrow(id).unwrap().status, EscrowStatus::Active);
    // the tax contract withholds 50_000 for its collector
    contract.release_funds(bob(), 1, 1, id, Some((50_000, django()))).unwrap();
    assert_eq!(paid_to(&contract, django()), 50_000);
    assert_eq!(paid_to(&contract, bob()), 950_000);
}

#[test]
fn test_dispute_resolution_status_changes() {
    let mut contract = AdvancedEscrow::new(alice(), 1_000_000, None);
    let admin = contract.get_admin();
    let id = two_party(&mut contract, 1, 1_000_000);
    contract.deposit_funds(alice(), 0, 1_000_000, id).unwrap();
    assert_eq!(contract.get_escrow(id).unwrap().status, EscrowStatus::Active);
    contract.raise_dispute(alice(), 0, id, "Property issues".to_string()).unwrap();
    assert_eq!(contract.get_escrow(id).unwrap().status, EscrowStatus::Disputed);
    assert!(!contract.get_dispute(id).unwrap().resolved);
    contract.resolve_dispute(admin, id, "Resolved amicably".to_string()).unwrap();
    assert_eq!(contract.get_escrow(id).unwrap().status, EscrowStatus::Active);
    let resolved = contract.get_dispute(id).unwrap();
    assert!(resolved.resolved);
    assert_eq!(resolved.resolution, Some("Resolved amicably".to_string()));
}

#[test]
fn test_emergency_override_with_and_without_tax() {
    let mut no_tax = AdvancedEscrow::new(alice(), 1_000_000, None);
    let admin = no_tax.get_admin();
    let id = two_party(&mut no_tax, 1, 1_000_000);
    no_tax.deposit_funds(alice(), 0, 1_000_000, id).unwrap();
    no_tax.emergency_override(admin, 5, id, true).unwrap();
    assert_eq!(paid_to(&no_tax, bob()), 1_000_000);
    assert_eq!(no_tax.get_escrow(id).unwrap().status, EscrowStatus::Released);

    let mut with_tax = AdvancedEscrow::new(alice(), 1_000_000, Some(django()));
    let admin2 = with_tax.get_admin();
    let id2 = two_party(&mut with_tax, 2, 1_000_000);
    with_tax.deposit_funds(alice(), 0, 1_000_000, id2).unwrap();
    with_tax.emergency_override(admin2, 5, id2, false).unwrap();
    assert_eq!(paid_to(&with_tax, alice()), 1_000_000);
    assert_eq!(with_tax.get_escrow(id2).unwrap().status, EscrowStatus::Refunded);
    assert_eq!(with_tax.emergency_override(admin2, 6, id2, true), Err(EscrowError::InvalidStatus));
    assert_eq!(with_tax.emergency_override(bob(), 6, id2, true), Err(EscrowError::Unauthorized));
}

#[test]
fn test_edge_cases_consistency() {
    let mut contract = AdvancedEscrow::new(alice(), 1_000_000, None);
    contract.set_large_transfer_thresholds(alice(), 5_000_000_000_000_000, 50_000_000_000_000_000).unwrap();
    let participants = vec![alice(), bob(), charlie()];
    let id1 = contract.create_escrow_advanced(alice(), 0, 1, 1_000_000, alice(), bob(), participants.clone(), 2, None).unwrap();
    let id2 = contract
        .create_escrow_advanced(alice(), 0, 2, 10_000_000_000_000_000, alice(), bob(), participants.clone(), 2, None)
        .unwrap();
    assert_eq!(contract.get_escrow(id1).unwrap().status, EscrowStatus::Created);
    assert_eq!(contract.get_escrow(id2).unwrap().status, EscrowStatus::Created);
    assert_eq!(contract.get_active_large_transfer_request(id1), 0);
    assert_eq!(contract.get_active_large_transfer_request(id2), 0);
}

#[test]
fn transfer_tiers_follow_thresholds() {
    let mut contract = AdvancedEscrow::new(alice(), 1_000_000, None);
    assert_eq!(contract.classify_transfer_tier(999_999_999_999_999), TransferApprovalTier::Standard);
    assert_eq!(contract.classify_transfer_tier(1_000_000_000_000_000), TransferApprovalTier::Large);
    assert_eq!(contract.classify_transfer_tier(10_000_000_000_000_000), TransferApprovalTier::VeryLarge);
    assert_eq!(contract.set_large_transfer_thresholds(alice(), 100, 50), Err(EscrowError::InvalidConfiguration));
    contract.set_large_transfer_thresholds(alice(), 100, 1_000).unwrap();
    assert_eq!(contract.classify_transfer_tier(99), TransferApprovalTier::Standard);
    assert_eq!(contract.classify_transfer_tier(100), TransferApprovalTier::Large);
    assert_eq!(contract.classify_transfer_tier(1_000), TransferApprovalTier::VeryLarge);
}

#[test]
fn test_audit_trail() {
    let mut contract = AdvancedEscrow::new(alice(), 1_000_000, None);
    let escrow_id = contract
        .create_escrow_advanced(alice(), 3, 1, 1_000_000, alice(), bob(), vec![alice(), bob()], 2, None)
        .expect("Escrow creation should succeed in test");
    contract.add_condition(alice(), 4, escrow_id, "Test condition".to_string()).unwrap();
    contract.upload_document(alice(), 5, escrow_id, doc(1), "Test doc".to_string()).unwrap();
    let audit_trail = contract.get_audit_trail(escrow_id);
    assert!(audit_trail.len() >= 3);
    let actions: Vec<String> = audit_trail.iter().map(|e| e.action.clone()).collect();
    assert!(actions.contains(&"EscrowCreated".to_string()));
    assert!(actions.contains(&"ConditionAdded".to_string()));
    assert!(actions.contains(&"DocumentUploaded".to_string()));
}

#[test]
fn audit_trail_records_each_step_in_order() {
    let mut contract = AdvancedEscrow::new(alice(), 1_000_000, None);
    let id = contract.create_escrow_advanced(charlie(), 10, 7, 250_000, alice(), bob(), vec![alice(), bob()], 2, None).unwrap();
    contract.deposit_funds(alice(), 20, 250_000, id).unwrap();
    contract.sign_approval(alice(), id, ApprovalType::Release).unwrap();
    contract.sign_approval(bob(), id, ApprovalType::Release).unwrap();
    contract.release_funds(bob(), 1, 30, id, None).unwrap();
    let trail = contract.get_audit_trail(id);
    assert_eq!(trail.len(), 3);
    assert_eq!(trail[0].action, "EscrowCreated");
    assert_eq!(trail[0].details, "Property: 7, Amount: 250000");
    assert_eq!(trail[0].actor, charlie());
    assert_eq!(trail[0].timestamp, 10);
    assert_eq!(trail[1].action, "FundsDeposited");
    assert_eq!(trail[1].details, "Amount: 250000");
    assert_eq!(trail[2].action, "FundsReleased");
    assert_eq!(trail[2].details, "Amount: 250000");
    assert_eq!(trail[2].actor, bob());
    assert_eq!(trail[2].timestamp, 30);
    assert!(contract.get_audit_trail(99).is_empty());
}

#[test]
fn refund_is_audited_with_the_refunded_amount() {
    let mut contract = AdvancedEscrow::new(alice(), 1_000_000, None);
    let id = two_party(&mut contract, 1, 5_000);
    contract.deposit_funds(alice(), 0, 5_000, id).unwrap();
    contract.sign_approval(alice(), id, ApprovalType::Refund).unwrap();
    contract.sign_approval(bob(), id, ApprovalType::Refund).unwrap();
    contract.refund_funds(alice(), 1, 9, id).unwrap();
    let trail = contract.get_audit_trail(id);
    assert_eq!(trail.last().unwrap().action, "FundsRefunded");
    assert_eq!(trail.last().unwrap().details, "Amount: 5000");
}

#[test]
fn tax_query_names_the_property_and_deposit() {
    let mut contract = AdvancedEscrow::new(alice(), 1_000_000, Some(django()));
    let id = two_party(&mut contract, 42, 300_000);
    contract.deposit_funds(alice(), 0, 300_000, id).unwrap();
    assert_eq!(contract.tax_withholding_query(id), Some((42, 300_000)));
    assert_eq!(contract.tax_withholding_query(99), None);
    let no_tax = AdvancedEscrow::new(alice(), 1_000_000, None);
    assert_eq!(no_tax.tax_withholding_query(1), None);
}
