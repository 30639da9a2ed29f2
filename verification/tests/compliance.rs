use lib::common::{AccountId, Hash32};
use lib::compliance::reports::WorkflowStatus;
use lib::compliance::{
    AMLRiskFactors, BiometricMethod, ComplianceError, ComplianceOperation, ComplianceRegistry, ConsentStatus,
    DocumentType, Jurisdiction, RiskLevel, SanctionsList, TaxComplianceStatus, VerificationStatus,
};

const NOW: u64 = 1_000;

fn owner() -> AccountId {
    AccountId::from_byte(1)
}
fn bob() -> AccountId {
    AccountId::from_byte(2)
}
fn charlie() -> AccountId {
    AccountId::from_byte(3)
}
fn django() -> AccountId {
    AccountId::from_byte(4)
}

fn h(b: u64) -> Hash32 {
    Hash32 { w0: b, w1: b, w2: b, w3: b }
}

fn clean() -> AMLRiskFactors {
    AMLRiskFactors {
        pep_status: false,
        high_risk_country: false,
        suspicious_transaction_pattern: false,
        large_transaction_volume: false,
        source_of_funds_verified: true,
    }
}

fn risky() -> AMLRiskFactors {
    AMLRiskFactors {
        pep_status: true,
        high_risk_country: true,
        suspicious_transaction_pattern: true,
        large_transaction_volume: true,
        source_of_funds_verified: false,
    }
}

/// Verifies `user` in the US and clears AML, sanctions and consent.
fn fully_compliant(c: &mut ComplianceRegistry, user: AccountId) {
    c.submit_verification(owner(), NOW, user, Jurisdiction::US, h(0), RiskLevel::Low, DocumentType::Passport,
        BiometricMethod::FaceRecognition, 15).unwrap();
    c.update_aml_status(owner(), NOW, user, true, clean()).unwrap();
    c.update_sanctions_status(owner(), NOW, user, true, SanctionsList::OFAC).unwrap();
    c.update_consent(owner(), NOW, user, ConsentStatus::Given).unwrap();
}

#[test]
fn new_works() {
    let contract = ComplianceRegistry::new(owner());
    assert_eq!(contract.get_owner(), owner());
    assert!(contract.get_jurisdiction_rules(Jurisdiction::US).is_some());
    assert!(contract.get_jurisdiction_rules(Jurisdiction::Singapore).unwrap().requires_biometric);
}

#[test]
fn verification_flow_works() {
    let mut contract = ComplianceRegistry::new(owner());
    let user = bob();
    fully_compliant(&mut contract, user);
    assert!(contract.is_compliant(NOW, user));
    assert!(contract.require_compliance(NOW, user).is_ok());
    let d = contract.get_compliance_data(user).unwrap();
    assert_eq!(d.status, VerificationStatus::Verified);
    assert!(d.aml_checked && d.sanctions_checked);
    // the verification lapses after a year
    assert!(!contract.is_compliant(d.expiry_timestamp, user));
}

#[test]
fn non_verified_user_fails_compliance() {
    let contract = ComplianceRegistry::new(owner());
    assert!(!contract.is_compliant(NOW, charlie()));
    assert_eq!(contract.require_compliance(NOW, charlie()), Err(ComplianceError::NotVerified));
}

#[test]
fn aml_failure_blocks_compliance() {
    let mut contract = ComplianceRegistry::new(owner());
    let user = django();
    contract.submit_verification(owner(), NOW, user, Jurisdiction::US, h(0), RiskLevel::Low, DocumentType::Passport,
        BiometricMethod::NoBiometric, 20).unwrap();
    contract.update_aml_status(owner(), NOW, user, true, clean()).unwrap();
    contract.update_sanctions_status(owner(), NOW, user, true, SanctionsList::UN).unwrap();
    contract.update_consent(owner(), NOW, user, ConsentStatus::Given).unwrap();
    assert!(contract.is_compliant(NOW, user));
    contract.update_aml_status(owner(), NOW, user, false, risky()).unwrap();
    assert!(!contract.is_compliant(NOW, user));
    let d = contract.get_compliance_data(user).unwrap();
    assert_eq!(d.risk_level, RiskLevel::Prohibited);
    assert_eq!(d.status, VerificationStatus::Rejected);
}

#[test]
fn only_verifiers_submit() {
    let mut contract = ComplianceRegistry::new(owner());
    let r = contract.submit_verification(bob(), NOW, charlie(), Jurisdiction::US, h(0), RiskLevel::Low,
        DocumentType::Passport, BiometricMethod::NoBiometric, 20);
    assert_eq!(r, Err(ComplianceError::NotAuthorized));
    contract.add_verifier(owner(), bob()).unwrap();
    let r = contract.submit_verification(bob(), NOW, charlie(), Jurisdiction::US, h(0), RiskLevel::Low,
        DocumentType::Passport, BiometricMethod::NoBiometric, 20);
    assert!(r.is_ok());
    let r = contract.submit_verification(bob(), NOW, django(), Jurisdiction::US, h(0), RiskLevel::Low,
        DocumentType::Passport, BiometricMethod::NoBiometric, 101);
    assert_eq!(r, Err(ComplianceError::InvalidRiskScore));
}

#[test]
fn check_transaction_compliance_works() {
    let mut contract = ComplianceRegistry::new(owner());
    let user = AccountId::from_byte(5);
    fully_compliant(&mut contract, user);
    assert!(contract.check_transaction_compliance(NOW, user, ComplianceOperation::RegisterProperty).is_ok());
    assert!(contract.check_transaction_compliance(NOW, user, ComplianceOperation::TransferProperty).is_ok());
    assert!(contract.check_transaction_compliance(NOW, user, ComplianceOperation::Purchase).is_ok());
    assert_eq!(
        contract.check_transaction_compliance(NOW, charlie(), ComplianceOperation::Purchase),
        Err(ComplianceError::NotVerified)
    );
}

#[test]
fn get_compliance_report_works() {
    let mut contract = ComplianceRegistry::new(owner());
    let user = AccountId::from_byte(6);
    contract.submit_verification(owner(), NOW, user, Jurisdiction::EU, h(0), RiskLevel::Low, DocumentType::NationalId,
        BiometricMethod::NoBiometric, 5).unwrap();
    let report = contract.get_compliance_report(NOW, user).unwrap();
    assert_eq!(report.account, user);
    assert_eq!(report.jurisdiction, Jurisdiction::EU);
    assert_eq!(report.status, VerificationStatus::Verified);
    assert!(report.kyc_verified);
    assert!(!report.is_compliant);
    assert_eq!(report.audit_log_count, 1);
    assert_eq!(report.last_audit_timestamp, NOW);
    assert!(contract.get_compliance_report(NOW, charlie()).is_none());
}

#[test]
fn get_verification_workflow_status_works() {
    let mut contract = ComplianceRegistry::new(owner());
    let request_id = contract.create_verification_request(bob(), NOW, Jurisdiction::UK, h(1), h(2)).unwrap();
    assert_eq!(contract.get_verification_workflow_status(request_id), Some(WorkflowStatus::Pending));
    assert_eq!(contract.get_verification_workflow_status(request_id + 1), None);
}

#[test]
fn get_regulatory_report_works() {
    let mut contract = ComplianceRegistry::new(owner());
    let request_id = contract.create_verification_request(bob(), NOW, Jurisdiction::US, h(9), h(8)).unwrap();
    contract.process_verification_request(owner(), NOW, request_id, h(7), RiskLevel::Low, DocumentType::Passport,
        BiometricMethod::FaceRecognition, 10).unwrap();
    let report = contract.get_regulatory_report(Jurisdiction::US, 0, 1000);
    assert_eq!(report.jurisdiction, Jurisdiction::US);
    assert_eq!(report.period_start, 0);
    assert_eq!(report.period_end, 1000);
    assert_eq!(report.verifications_count, 1);
    assert_eq!(report.compliant_accounts, 0);
}

#[test]
fn get_sanctions_screening_summary_works() {
    let contract = ComplianceRegistry::new(owner());
    let summary = contract.get_sanctions_screening_summary();
    assert!(!summary.lists_checked.is_empty());
    assert_eq!(summary.lists_checked, vec![0, 1, 2, 3, 4, 5, 6]);
    assert_eq!(summary.total_screened, 0);
}

#[test]
fn tax_status_extends_compliance_checks_without_breaking_existing_flow() {
    let mut contract = ComplianceRegistry::new(owner());
    let user = AccountId::from_byte(7);
    fully_compliant(&mut contract, user);
    assert!(contract.is_compliant(NOW, user));
    contract.update_tax_compliance_status(owner(), NOW, user, TaxComplianceStatus {
        jurisdiction_code: 1001,
        reporting_period: 1,
        last_checked_at: 1,
        last_payment_at: 0,
        outstanding_tax: 25,
        reporting_submitted: false,
        legal_documents_verified: false,
        clearance_expiry: 0,
        violation_count: 1,
    }).unwrap();
    assert!(!contract.is_compliant(NOW, user));
    contract.update_tax_compliance_status(owner(), NOW, user, TaxComplianceStatus {
        jurisdiction_code: 1001,
        reporting_period: 1,
        last_checked_at: 2,
        last_payment_at: 2,
        outstanding_tax: 0,
        reporting_submitted: true,
        legal_documents_verified: true,
        clearance_expiry: 10_000,
        violation_count: 0,
    }).unwrap();
    let report = contract.get_compliance_report(NOW, user).unwrap();
    assert!(contract.is_compliant(NOW, user));
    assert!(report.tax_compliant);
    assert_eq!(report.outstanding_tax, 0);
    // once the clearance has expired the account is no longer compliant
    assert!(!contract.is_compliant(10_001, user));
}

#[test]
fn kyc_metrics_track_request_conversion_and_verification_rates() {
    let mut contract = ComplianceRegistry::new(owner());
    let request_id = contract.create_verification_request(bob(), NOW, Jurisdiction::US, h(1), h(2)).unwrap();
    let pending = contract.get_kyc_metrics();
    assert_eq!(pending.requests_created, 1);
    assert_eq!(pending.pending_requests, 1);
    assert_eq!(pending.verification_attempts, 0);
    assert_eq!(pending.conversion_rate_bips, 0);
    assert_eq!(pending.verification_rate_bips, 0);
    contract.process_verification_request(owner(), NOW, request_id, h(3), RiskLevel::Low, DocumentType::Passport,
        BiometricMethod::FaceRecognition, 10).unwrap();
    let m = contract.get_kyc_metrics();
    assert_eq!(m.requests_created, 1);
    assert_eq!(m.pending_requests, 0);
    assert_eq!(m.verification_attempts, 1);
    assert_eq!(m.successful_verifications, 1);
    assert_eq!(m.failed_verifications, 0);
    assert_eq!(m.converted_requests, 1);
    assert_eq!(m.conversion_rate_bips, 10_000);
    assert_eq!(m.verification_rate_bips, 10_000);
    let us = contract.get_jurisdiction_kyc_metrics(Jurisdiction::US);
    assert_eq!(us.converted_requests, 1);
    assert_eq!(us.successful_verifications, 1);
}

#[test]
fn kyc_metrics_track_failed_verification_attempts_without_conversion() {
    let mut contract = ComplianceRegistry::new(owner());
    let request_id = contract.create_verification_request(charlie(), NOW, Jurisdiction::UK, h(4), h(5)).unwrap();
    let result = contract.process_verification_request(owner(), NOW, request_id, h(6), RiskLevel::Low,
        DocumentType::Passport, BiometricMethod::FaceRecognition, 101);
    assert_eq!(result, Err(ComplianceError::InvalidRiskScore));
    let m = contract.get_kyc_metrics();
    assert_eq!(m.requests_created, 1);
    assert_eq!(m.pending_requests, 1);
    assert_eq!(m.verification_attempts, 1);
    assert_eq!(m.successful_verifications, 0);
    assert_eq!(m.failed_verifications, 1);
    assert_eq!(m.converted_requests, 0);
    assert_eq!(m.conversion_rate_bips, 0);
    assert_eq!(m.verification_rate_bips, 0);
    assert_eq!(contract.get_verification_request(request_id).unwrap().status, VerificationStatus::Pending);
}

#[test]
fn direct_verification_completes_pending_request_for_conversion_tracking() {
    let mut contract = ComplianceRegistry::new(owner());
    let request_id = contract.create_verification_request(django(), NOW, Jurisdiction::EU, h(7), h(8)).unwrap();
    contract.submit_verification(owner(), NOW, django(), Jurisdiction::EU, h(9), RiskLevel::Low, DocumentType::Passport,
        BiometricMethod::FaceRecognition, 15).unwrap();
    assert_eq!(contract.get_verification_request(request_id).unwrap().status, VerificationStatus::Verified);
    let m = contract.get_jurisdiction_kyc_metrics(Jurisdiction::EU);
    assert_eq!(m.requests_created, 1);
    assert_eq!(m.pending_requests, 0);
    assert_eq!(m.converted_requests, 1);
    assert_eq!(m.successful_verifications, 1);
    assert_eq!(m.verification_rate_bips, 10_000);
}

#[test]
fn verification_level_formula() {
    // a base of one, two for a passport, one for a face scan, one for a low risk score
    assert_eq!(ComplianceRegistry::calculate_verification_level(DocumentType::Passport, BiometricMethod::FaceRecognition, 15), 5);
    assert_eq!(ComplianceRegistry::compute_rate_bips(1, 3), 3_333);
    assert_eq!(ComplianceRegistry::compute_rate_bips(5, 0), 0);
}

#[test]
fn audit_logs_return_latest_entries() {
    let mut contract = ComplianceRegistry::new(owner());
    let user = bob();
    fully_compliant(&mut contract, user);
    let logs = contract.get_audit_logs(user, 2);
    assert_eq!(logs.len(), 2);
    assert_eq!(logs[0].action, 2);
    assert_eq!(logs[1].action, 3);
    assert_eq!(contract.get_audit_logs(user, 100).len(), 4);
    assert!(contract.get_audit_logs(charlie(), 5).is_empty());
}

#[test]
fn batch_aml_check_records_known_accounts() {
    let mut contract = ComplianceRegistry::new(owner());
    fully_compliant(&mut contract, bob());
    let results = contract.batch_aml_check(owner(), NOW, vec![bob(), charlie()], vec![risky(), clean()]).unwrap();
    assert_eq!(results, vec![false, true]);
    assert!(!contract.is_compliant(NOW, bob()));
    assert!(contract.get_compliance_data(charlie()).is_none());
    assert_eq!(contract.batch_aml_check(owner(), NOW, vec![bob()], vec![]), Err(ComplianceError::NotVerified));
    assert_eq!(contract.batch_aml_check(bob(), NOW, vec![], vec![]), Err(ComplianceError::NotAuthorized));
}

#[test]
fn batch_sanctions_check_stops_at_unknown_account() {
    let mut contract = ComplianceRegistry::new(owner());
    fully_compliant(&mut contract, bob());
    fully_compliant(&mut contract, django());
    let r = contract.batch_sanctions_check(owner(), NOW, vec![bob(), charlie(), django()], SanctionsList::EU,
        vec![false, true, false]);
    assert_eq!(r, Err(ComplianceError::NotVerified));
    // bob was screened before the stop, django was not
    assert!(!contract.is_compliant(NOW, bob()));
    assert!(contract.is_compliant(NOW, django()));
    assert!(contract.batch_sanctions_check(owner(), NOW, vec![django()], SanctionsList::UK, vec![true]).is_ok());
    assert_eq!(contract.get_compliance_data(django()).unwrap().sanctions_list_checked, SanctionsList::UK);
}

#[test]
fn compliance_summary_and_reverification() {
    let mut contract = ComplianceRegistry::new(owner());
    fully_compliant(&mut contract, bob());
    let summary = contract.get_compliance_summary(NOW, vec![bob(), charlie()]);
    assert_eq!(summary, vec![(bob(), true), (charlie(), false)]);
    assert!(contract.needs_reverification(NOW, charlie(), 30));
    assert!(!contract.needs_reverification(NOW, bob(), 30));
    let expiry = contract.get_compliance_data(bob()).unwrap().expiry_timestamp;
    assert!(contract.needs_reverification(expiry - 86_400_000 * 30, bob(), 30));
    assert!(!contract.needs_reverification(expiry - 86_400_000 * 30 - 1, bob(), 30));
    assert!(contract.get_accounts_needing_reverification(10).is_empty());
    assert!(contract.enhanced_compliance_check(NOW, bob()).is_ok());
    assert_eq!(contract.enhanced_compliance_check(NOW, charlie()), Err(ComplianceError::NotVerified));
}

#[test]
fn compliance_errors_have_texts_and_keys() {
    assert_eq!(ComplianceError::HighRisk.to_string(), "User has high risk level");
    assert_eq!(ComplianceError::NotVerified.error_description(), "The user has not completed verification");
    assert_eq!(ComplianceError::ConsentNotGiven.error_i18n_key(), "compliance.consent_not_given");
}
