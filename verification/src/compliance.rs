//! The compliance registry: KYC verifications by authorized verifiers under
//! jurisdiction rules, AML and sanctions screening, GDPR consent and retention, tax
//! standing, an audit trail and KYC funnel metrics.
use vstd::prelude::*;

pub mod errors;
pub mod reports;

use crate::common::{get_or, lookup_or, sadd64, ssub64, AccountId, Hash32, Table, TableKey};

verus! {

/// Where an account's verification stands.
#[derive(Clone, Copy, Debug, PartialEq, Eq, Structural)]
pub enum VerificationStatus {
    NotVerified,
    Pending,
    Verified,
    Rejected,
    Expired,
}

/// The jurisdictions the registry knows.
#[derive(Clone, Copy, Debug, PartialEq, Eq, Structural)]
pub enum Jurisdiction {
    US,
    EU,
    UK,
    Singapore,
    UAE,
    Other,
}

impl TableKey for Jurisdiction {
    fn same(&self, other: &Self) -> (r: bool) {
        *self == *other
    }
}

/// An account's assessed risk.
#[derive(Clone, Copy, Debug, PartialEq, Eq, Structural)]
pub enum RiskLevel {
    Low,
    Medium,
    High,
    Prohibited,
}

/// The identity document a verification rests on.
#[derive(Clone, Copy, Debug, PartialEq, Eq, Structural)]
pub enum DocumentType {
    Passport,
    NationalId,
    DriverLicense,
    BirthCertificate,
    ProofOfAddress,
    CorporateDocument,
}

/// The biometric check a verification used.
#[derive(Clone, Copy, Debug, PartialEq, Eq, Structural)]
pub enum BiometricMethod {
    NoBiometric,
    Fingerprint,
    FaceRecognition,
    VoiceRecognition,
    IrisScan,
    MultiFactor,
}

/// The sanctions list screened against.
#[derive(Clone, Copy, Debug, PartialEq, Eq, Structural)]
pub enum SanctionsList {
    UN,
    OFAC,
    EU,
    UK,
    Singapore,
    UAE,
    Multiple,
}

/// An account's GDPR consent.
#[derive(Clone, Copy, Debug, PartialEq, Eq, Structural)]
pub enum ConsentStatus {
    NotGiven,
    Given,
    Withdrawn,
    Expired,
}

/// The operations the registry is asked to clear.
#[derive(Clone, Copy, Debug, PartialEq, Eq, Structural)]
pub enum ComplianceOperation {
    RegisterProperty,
    TransferProperty,
    UpdateMetadata,
    CreateEscrow,
    ReleaseEscrow,
    ListForSale,
    Purchase,
    BridgeTransfer,
}

/// The AML risk factors of an account.
#[derive(Clone, Copy, Debug, PartialEq, Eq, Structural)]
pub struct AMLRiskFactors {
    pub pep_status: bool,
    pub high_risk_country: bool,
    pub suspicious_transaction_pattern: bool,
    pub large_transaction_volume: bool,
    pub source_of_funds_verified: bool,
}

/// What a jurisdiction requires.
#[derive(Clone, Copy, Debug, PartialEq, Eq, Structural)]
pub struct JurisdictionRules {
    pub requires_kyc: bool,
    pub requires_aml: bool,
    pub requires_sanctions_check: bool,
    pub minimum_verification_level: u8,
    pub data_retention_days: u32,
    pub requires_biometric: bool,
}

/// An account's compliance record.
#[derive(Clone, Copy, Debug, PartialEq, Eq, Structural)]
pub struct ComplianceData {
    pub status: VerificationStatus,
    pub jurisdiction: Jurisdiction,
    pub risk_level: RiskLevel,
    pub verification_timestamp: u64,
    pub expiry_timestamp: u64,
    pub kyc_hash: Hash32,
    pub aml_checked: bool,
    pub sanctions_checked: bool,
    pub document_type: DocumentType,
    pub biometric_method: BiometricMethod,
    pub risk_score: u8,
    pub aml_risk_factors: AMLRiskFactors,
    pub sanctions_list_checked: SanctionsList,
    pub gdpr_consent: ConsentStatus,
    pub data_encrypted: bool,
    pub consent_timestamp: u64,
    pub data_retention_until: u64,
}

/// An account's tax standing, as a tax module reports it.
#[derive(Clone, Copy, Debug, PartialEq, Eq, Structural)]
pub struct TaxComplianceStatus {
    pub jurisdiction_code: u32,
    pub reporting_period: u64,
    pub last_checked_at: u64,
    pub last_payment_at: u64,
    pub outstanding_tax: u128,
    pub reporting_submitted: bool,
    pub legal_documents_verified: bool,
    pub clearance_expiry: u64,
    pub violation_count: u32,
}

/// One entry of an account's audit trail.
#[derive(Clone, Copy, Debug, PartialEq, Eq, Structural)]
pub struct AuditLog {
    pub account: AccountId,
    /// 0 verification, 1 AML check, 2 sanctions check, 3 consent update, 4 tax sync.
    pub action: u8,
    pub timestamp: u64,
    pub verifier: AccountId,
}

/// A verification an account asked an off-chain service for.
#[derive(Clone, Copy, Debug, PartialEq, Eq, Structural)]
pub struct VerificationRequest {
    pub account: AccountId,
    pub jurisdiction: Jurisdiction,
    pub document_hash: Hash32,
    pub biometric_hash: Hash32,
    pub request_timestamp: u64,
    pub request_id: u64,
    pub status: VerificationStatus,
}

/// A registered KYC, AML or sanctions service.
#[derive(Clone, Copy, Debug, PartialEq, Eq, Structural)]
pub struct ServiceProvider {
    pub provider_id: AccountId,
    /// 0 KYC, 1 AML, 2 sanctions, 3 all.
    pub service_type: u8,
    pub is_active: bool,
    pub last_update: u64,
}

/// KYC funnel figures: requests, attempts, outcomes and the derived rates in bips.
#[derive(Clone, Copy, Debug, PartialEq, Eq, Structural)]
pub struct KycMetrics {
    pub requests_created: u64,
    pub pending_requests: u64,
    pub verification_attempts: u64,
    pub successful_verifications: u64,
    pub failed_verifications: u64,
    pub converted_requests: u64,
    pub conversion_rate_bips: u32,
    pub verification_rate_bips: u32,
}

/// Why a compliance operation was refused.
#[derive(Clone, Copy, Debug, PartialEq, Eq, Structural)]
pub enum ComplianceError {
    NotAuthorized,
    NotVerified,
    VerificationExpired,
    HighRisk,
    ProhibitedJurisdiction,
    AlreadyVerified,
    ConsentNotGiven,
    DataRetentionExpired,
    InvalidRiskScore,
    InvalidDocumentType,
    JurisdictionNotSupported,
}

/// Milliseconds in a day.
pub const DAY_MS: u64 = 86_400_000;

/// How long a verification is valid, in milliseconds (365 days).
pub const VERIFICATION_VALIDITY_MS: u64 = 31_536_000_000;

/// The abstract state of the registry.
#[verifier::ext_equal]
pub struct ComplianceState {
    pub owner: AccountId,
    pub verifiers: Map<AccountId, bool>,
    pub data: Map<AccountId, ComplianceData>,
    pub rules: Map<Jurisdiction, JurisdictionRules>,
    pub audit_logs: Map<(AccountId, u64), AuditLog>,
    pub audit_count: Map<AccountId, u64>,
    pub encrypted_data_hashes: Map<AccountId, Hash32>,
    pub requests: Map<u64, VerificationRequest>,
    pub request_counter: u64,
    pub providers: Map<AccountId, ServiceProvider>,
    pub account_requests: Map<AccountId, u64>,
    pub zk_compliance_contract: Option<AccountId>,
    pub tax_modules: Map<AccountId, bool>,
    pub tax_status: Map<AccountId, TaxComplianceStatus>,
    pub kyc_metrics: KycMetrics,
    pub jurisdiction_metrics: Map<Jurisdiction, KycMetrics>,
}

/// The compliance registry.
pub struct ComplianceRegistry {
    owner: AccountId,
    verifiers: Table<AccountId, bool>,
    data: Table<AccountId, ComplianceData>,
    rules: Table<Jurisdiction, JurisdictionRules>,
    audit_logs: Table<(AccountId, u64), AuditLog>,
    audit_count: Table<AccountId, u64>,
    encrypted_data_hashes: Table<AccountId, Hash32>,
    requests: Table<u64, VerificationRequest>,
    request_counter: u64,
    providers: Table<AccountId, ServiceProvider>,
    account_requests: Table<AccountId, u64>,
    zk_compliance_contract: Option<AccountId>,
    tax_modules: Table<AccountId, bool>,
    tax_status: Table<AccountId, TaxComplianceStatus>,
    kyc_metrics: KycMetrics,
    jurisdiction_metrics: Table<Jurisdiction, KycMetrics>,
}

impl View for ComplianceRegistry {
    type V = ComplianceState;

    closed spec fn view(&self) -> ComplianceState {
        ComplianceState {
            owner: self.owner,
            verifiers: self.verifiers@,
            data: self.data@,
            rules: self.rules@,
            audit_logs: self.audit_logs@,
            audit_count: self.audit_count@,
            encrypted_data_hashes: self.encrypted_data_hashes@,
            requests: self.requests@,
            request_counter: self.request_counter,
            providers: self.providers@,
            account_requests: self.account_requests@,
            zk_compliance_contract: self.zk_compliance_contract,
            tax_modules: self.tax_modules@,
            tax_status: self.tax_status@,
            kyc_metrics: self.kyc_metrics,
            jurisdiction_metrics: self.jurisdiction_metrics@,
        }
    }
}

/// The rules a registry starts with: KYC, AML and sanctions everywhere it has rules;
/// level 3 for the US, the EU and the UK, level 4 with biometrics for Singapore and
/// the UAE; retention of seven years in the US, three in the EU, five elsewhere.
pub open spec fn default_rules() -> Map<Jurisdiction, JurisdictionRules> {
    Map::empty().insert(Jurisdiction::US, rules_of(3, 2555, false)).insert(
        Jurisdiction::EU,
        rules_of(3, 1095, false),
    ).insert(Jurisdiction::UK, rules_of(3, 1825, false)).insert(
        Jurisdiction::Singapore,
        rules_of(4, 1825, true),
    ).insert(Jurisdiction::UAE, rules_of(4, 1825, true))
}

/// Rules requiring KYC, AML and sanctions screening, with the given level, retention
/// and biometric requirement.
pub open spec fn rules_of(level: u8, retention_days: u32, biometric: bool) -> JurisdictionRules {
    JurisdictionRules {
        requires_kyc: true,
        requires_aml: true,
        requires_sanctions_check: true,
        minimum_verification_level: level,
        data_retention_days: retention_days,
        requires_biometric: biometric,
    }
}

/// Metrics with every figure at zero.
pub open spec fn zero_metrics() -> KycMetrics {
    KycMetrics {
        requests_created: 0,
        pending_requests: 0,
        verification_attempts: 0,
        successful_verifications: 0,
        failed_verifications: 0,
        converted_requests: 0,
        conversion_rate_bips: 0,
        verification_rate_bips: 0,
    }
}

/// The strength of a verification, 1 to 5: from the document, the biometric check and
/// the risk score.
pub open spec fn verification_level(doc: DocumentType, bio: BiometricMethod, risk_score: u8) -> u8 {
    let d: int = match doc {
        DocumentType::Passport => 2,
        DocumentType::CorporateDocument => 2,
        _ => 1,
    };
    let b: int = match bio {
        BiometricMethod::NoBiometric => 0,
        BiometricMethod::IrisScan => 2,
        BiometricMethod::MultiFactor => 3,
        _ => 1,
    };
    let base = 1 + d + b;
    let adjusted = if risk_score < 20 {
        base + 1
    } else if risk_score > 80 {
        if base >= 2 {
            base - 2
        } else {
            0
        }
    } else {
        base
    };
    if adjusted > 5 {
        5
    } else {
        adjusted as u8
    }
}

/// `numerator` per `denominator` in bips (0 for no denominator).
pub open spec fn rate_bips(numerator: u64, denominator: u64) -> u32 {
    if denominator == 0 {
        0
    } else {
        (crate::common::smul64(numerator, 10_000) / denominator) as u32
    }
}

/// `m` with its rates recomputed.
pub open spec fn refreshed(m: KycMetrics) -> KycMetrics {
    KycMetrics {
        conversion_rate_bips: rate_bips(m.converted_requests, m.requests_created),
        verification_rate_bips: rate_bips(m.successful_verifications, m.verification_attempts),
        ..m
    }
}

/// `m` after a verification attempt.
pub open spec fn after_attempt(m: KycMetrics, converted: bool, success: bool) -> KycMetrics {
    let m1 = KycMetrics { verification_attempts: sadd64(m.verification_attempts, 1), ..m };
    let m2 = if success {
        let m3 = KycMetrics { successful_verifications: sadd64(m1.successful_verifications, 1), ..m1 };
        if converted {
            KycMetrics {
                converted_requests: sadd64(m3.converted_requests, 1),
                pending_requests: ssub64(m3.pending_requests, 1),
                ..m3
            }
        } else {
            m3
        }
    } else {
        KycMetrics { failed_verifications: sadd64(m1.failed_verifications, 1), ..m1 }
    };
    refreshed(m2)
}

/// `m` after a verification request is created.
pub open spec fn after_request(m: KycMetrics) -> KycMetrics {
    refreshed(
        KycMetrics {
            requests_created: sadd64(m.requests_created, 1),
            pending_requests: sadd64(m.pending_requests, 1),
            ..m
        },
    )
}

/// The metrics of `j`, all zero when it has none.
pub open spec fn metrics_of(s: ComplianceState, j: Jurisdiction) -> KycMetrics {
    get_or(s.jurisdiction_metrics, j, zero_metrics())
}

/// The state after a verification attempt in `j`.
pub open spec fn attempted(s: ComplianceState, j: Jurisdiction, converted: bool, success: bool) -> ComplianceState {
    ComplianceState {
        kyc_metrics: after_attempt(s.kyc_metrics, converted, success),
        jurisdiction_metrics: s.jurisdiction_metrics.insert(j, after_attempt(metrics_of(s, j), converted, success)),
        ..s
    }
}

/// The state after `by` records action `action` on `account` at `timestamp`.
pub open spec fn audited(s: ComplianceState, account: AccountId, action: u8, by: AccountId, timestamp: u64) -> ComplianceState {
    let n = get_or(s.audit_count, account, 0u64);
    ComplianceState {
        audit_logs: s.audit_logs.insert(
            (account, n),
            AuditLog { account, action, timestamp, verifier: by },
        ),
        audit_count: s.audit_count.insert(account, (n + 1) as u64),
        ..s
    }
}

/// Whether `caller` is an authorized verifier.
pub open spec fn is_verifier(s: ComplianceState, caller: AccountId) -> bool {
    get_or(s.verifiers, caller, false)
}

/// Whether the account's tax standing (if reported) is clean at `now`.
pub open spec fn tax_compliant(s: ComplianceState, account: AccountId, now: u64) -> bool {
    if s.tax_status.contains_key(account) {
        let t = s.tax_status[account];
        t.outstanding_tax == 0 && t.reporting_submitted && t.legal_documents_verified && (t.clearance_expiry
            == 0 || t.clearance_expiry >= now)
    } else {
        true
    }
}

/// Whether `account` is compliant at `now`: verified and unexpired, not prohibited,
/// screened for AML and sanctions, consenting, within retention, with clean taxes.
pub open spec fn compliant(s: ComplianceState, account: AccountId, now: u64) -> bool {
    s.data.contains_key(account) && {
        let d = s.data[account];
        &&& d.status == VerificationStatus::Verified
        &&& d.expiry_timestamp > now
        &&& d.risk_level != RiskLevel::Prohibited
        &&& d.aml_checked
        &&& d.sanctions_checked
        &&& d.gdpr_consent == ConsentStatus::Given
        &&& now <= d.data_retention_until
        &&& tax_compliant(s, account, now)
    }
}

/// The record a verification at `now` creates.
pub open spec fn verified_record(
    now: u64,
    jurisdiction: Jurisdiction,
    rules: JurisdictionRules,
    kyc_hash: Hash32,
    risk_level: RiskLevel,
    doc: DocumentType,
    bio: BiometricMethod,
    risk_score: u8,
) -> ComplianceData {
    ComplianceData {
        status: VerificationStatus::Verified,
        jurisdiction,
        risk_level,
        verification_timestamp: now,
        expiry_timestamp: (now + VERIFICATION_VALIDITY_MS) as u64,
        kyc_hash,
        aml_checked: false,
        sanctions_checked: false,
        document_type: doc,
        biometric_method: bio,
        risk_score,
        aml_risk_factors: AMLRiskFactors {
            pep_status: false,
            high_risk_country: false,
            suspicious_transaction_pattern: false,
            large_transaction_volume: false,
            source_of_funds_verified: false,
        },
        sanctions_list_checked: SanctionsList::UN,
        gdpr_consent: ConsentStatus::NotGiven,
        data_encrypted: true,
        consent_timestamp: 0,
        data_retention_until: (now + rules.data_retention_days * DAY_MS) as u64,
    }
}

/// Whether `account` has a pending request in `j`, which a verification then completes.
pub open spec fn completes_request(s: ComplianceState, account: AccountId, j: Jurisdiction) -> bool {
    s.account_requests.contains_key(account) && s.requests.contains_key(s.account_requests[account])
        && s.requests[s.account_requests[account]].status == VerificationStatus::Pending
        && s.requests[s.account_requests[account]].jurisdiction == j
}

/// The state after the pending request of `account` in `j`, if any, is completed.
pub open spec fn completed(s: ComplianceState, account: AccountId, j: Jurisdiction) -> ComplianceState {
    if completes_request(s, account, j) {
        let id = s.account_requests[account];
        ComplianceState {
            requests: s.requests.insert(id, VerificationRequest { status: VerificationStatus::Verified, ..s.requests[id] }),
            ..s
        }
    } else {
        s
    }
}

/// Why a verification by an authorized verifier would fail, if it would.
pub open spec fn verification_error(
    s: ComplianceState,
    jurisdiction: Jurisdiction,
    doc: DocumentType,
    bio: BiometricMethod,
    risk_score: u8,
) -> Option<ComplianceError> {
    if risk_score > 100 {
        Some(ComplianceError::InvalidRiskScore)
    } else if !s.rules.contains_key(jurisdiction) {
        Some(ComplianceError::JurisdictionNotSupported)
    } else if verification_level(doc, bio, risk_score) < s.rules[jurisdiction].minimum_verification_level {
        Some(ComplianceError::NotVerified)
    } else {
        None
    }
}

/// The outcome of `caller` submitting a verification of `account` at `now`.
pub open spec fn verification_outcome(
    s: ComplianceState,
    caller: AccountId,
    now: u64,
    account: AccountId,
    jurisdiction: Jurisdiction,
    kyc_hash: Hash32,
    risk_level: RiskLevel,
    doc: DocumentType,
    bio: BiometricMethod,
    risk_score: u8,
) -> (ComplianceState, Result<(), ComplianceError>) {
    if !is_verifier(s, caller) {
        (s, Err(ComplianceError::NotAuthorized))
    } else {
        match verification_error(s, jurisdiction, doc, bio, risk_score) {
            Some(e) => (attempted(s, jurisdiction, false, false), Err(e)),
            None => {
                let d = verified_record(
                    now,
                    jurisdiction,
                    s.rules[jurisdiction],
                    kyc_hash,
                    risk_level,
                    doc,
                    bio,
                    risk_score,
                );
                let s1 = ComplianceState { data: s.data.insert(account, d), ..s };
                let converted = completes_request(s1, account, jurisdiction);
                let s2 = completed(s1, account, jurisdiction);
                let s3 = attempted(s2, jurisdiction, converted, true);
                (audited(s3, account, 0, caller, now), Ok(()))
            },
        }
    }
}

/// The number of AML risk factors present (the source of funds aside).
pub open spec fn risk_count(f: AMLRiskFactors) -> int {
    (if f.pep_status {
        1int
    } else {
        0
    }) + (if f.high_risk_country {
        1int
    } else {
        0
    }) + (if f.suspicious_transaction_pattern {
        1int
    } else {
        0
    }) + (if f.large_transaction_volume {
        1int
    } else {
        0
    })
}

/// A record after an AML check: a failed check or three risk factors prohibit the
/// account; two make it high risk, one medium.
pub open spec fn aml_updated(d: ComplianceData, passed: bool, f: AMLRiskFactors) -> ComplianceData {
    let d1 = ComplianceData { aml_checked: passed, aml_risk_factors: f, ..d };
    if !passed || risk_count(f) >= 3 {
        ComplianceData { status: VerificationStatus::Rejected, risk_level: RiskLevel::Prohibited, ..d1 }
    } else if risk_count(f) >= 2 {
        ComplianceData { risk_level: RiskLevel::High, ..d1 }
    } else if risk_count(f) >= 1 {
        ComplianceData { risk_level: RiskLevel::Medium, ..d1 }
    } else {
        d1
    }
}

/// The severity of a risk level, from low (0) to prohibited (3).
pub open spec fn risk_rank(l: RiskLevel) -> int {
    match l {
        RiskLevel::Low => 0,
        RiskLevel::Medium => 1,
        RiskLevel::High => 2,
        RiskLevel::Prohibited => 3,
    }
}

/// An AML check sets the account's risk by the number of risk factors it found: after a
/// passed check with at least one factor the level's severity is that number (three or
/// more prohibit the account and reject its verification); a passed check without
/// factors leaves the level as it was; a failed check prohibits and rejects. So one more
/// factor never lowers the level, and below three it raises it.
pub proof fn lemma_aml_risk_follows_factor_count(d: ComplianceData, passed: bool, f: AMLRiskFactors)
    ensures
        ({
            let r = aml_updated(d, passed, f);
            &&& !passed ==> r.risk_level == RiskLevel::Prohibited && r.status == VerificationStatus::Rejected
            &&& passed && risk_count(f) == 0 ==> r.risk_level == d.risk_level && r.status == d.status
            &&& passed && 1 <= risk_count(f) <= 2 ==> risk_rank(r.risk_level) == risk_count(f) && r.status
                == d.status
            &&& passed && risk_count(f) >= 3 ==> r.risk_level == RiskLevel::Prohibited && r.status
                == VerificationStatus::Rejected
            &&& r.aml_checked == passed && r.aml_risk_factors == f
        }),
{
}

/// Of two passed AML checks on the same record, the one that found more risk factors
/// leaves a risk level at least as high (when the other found any), and strictly higher
/// when the other found one or two.
pub proof fn lemma_aml_more_factors_higher_risk(d: ComplianceData, f1: AMLRiskFactors, f2: AMLRiskFactors)
    requires
        1 <= risk_count(f1) <= risk_count(f2),
    ensures
        risk_rank(aml_updated(d, true, f1).risk_level) <= risk_rank(aml_updated(d, true, f2).risk_level),
        risk_count(f1) < risk_count(f2) && risk_count(f1) <= 2 ==> risk_rank(aml_updated(d, true, f1).risk_level)
            < risk_rank(aml_updated(d, true, f2).risk_level),
{
}

/// A record after sanctions screening: a failed screening prohibits the account.
pub open spec fn sanctions_updated(d: ComplianceData, passed: bool, list: SanctionsList) -> ComplianceData {
    let d1 = ComplianceData { sanctions_checked: passed, sanctions_list_checked: list, ..d };
    if !passed {
        ComplianceData { status: VerificationStatus::Rejected, risk_level: RiskLevel::Prohibited, ..d1 }
    } else {
        d1
    }
}

impl ComplianceRegistry {
    /// The tables' invariants.
    pub closed spec fn wf(&self) -> bool {
        &&& self.verifiers.wf()
        &&& self.data.wf()
        &&& self.rules.wf()
        &&& self.audit_logs.wf()
        &&& self.audit_count.wf()
        &&& self.encrypted_data_hashes.wf()
        &&& self.requests.wf()
        &&& self.providers.wf()
        &&& self.account_requests.wf()
        &&& self.tax_modules.wf()
        &&& self.tax_status.wf()
        &&& self.jurisdiction_metrics.wf()
    }

    /// A registry owned by `caller`, who is its first verifier, with the default
    /// jurisdiction rules.
    pub fn new(caller: AccountId) -> (r: ComplianceRegistry)
        ensures
            r.wf(),
            r@ == (ComplianceState {
                owner: caller,
                verifiers: Map::empty().insert(caller, true),
                data: Map::empty(),
                rules: default_rules(),
                audit_logs: Map::empty(),
                audit_count: Map::empty(),
                encrypted_data_hashes: Map::empty(),
                requests: Map::empty(),
                request_counter: 0,
                providers: Map::empty(),
                account_requests: Map::empty(),
                zk_compliance_contract: None,
                tax_modules: Map::empty(),
                tax_status: Map::empty(),
                kyc_metrics: zero_metrics(),
                jurisdiction_metrics: Map::empty(),
            }),
    {
        let mut verifiers = Table::new();
        verifiers.insert(caller, true);
        let mut r = ComplianceRegistry {
            owner: caller,
            verifiers,
            data: Table::new(),
            rules: Table::new(),
            audit_logs: Table::new(),
            audit_count: Table::new(),
            encrypted_data_hashes: Table::new(),
            requests: Table::new(),
            request_counter: 0,
            providers: Table::new(),
            account_requests: Table::new(),
            zk_compliance_contract: None,
            tax_modules: Table::new(),
            tax_status: Table::new(),
            kyc_metrics: KycMetrics {
                requests_created: 0,
                pending_requests: 0,
                verification_attempts: 0,
                successful_verifications: 0,
                failed_verifications: 0,
                converted_requests: 0,
                conversion_rate_bips: 0,
                verification_rate_bips: 0,
            },
            jurisdiction_metrics: Table::new(),
        };
        r.init_default_jurisdiction_rules();
        r
    }

    fn init_default_jurisdiction_rules(&mut self)
        requires
            old(self).wf(),
            old(self)@.rules == Map::<Jurisdiction, JurisdictionRules>::empty(),
        ensures
            final(self).wf(),
            final(self)@ == (ComplianceState { rules: default_rules(), ..old(self)@ }),
    {
        self.rules.insert(
            Jurisdiction::US,
            JurisdictionRules {
                requires_kyc: true,
                requires_aml: true,
                requires_sanctions_check: true,
                minimum_verification_level: 3,
                data_retention_days: 2555,
                requires_biometric: false,
            },
        );
        self.rules.insert(
            Jurisdiction::EU,
            JurisdictionRules {
                requires_kyc: true,
                requires_aml: true,
                requires_sanctions_check: true,
                minimum_verification_level: 3,
                data_retention_days: 1095,
                requires_biometric: false,
            },
        );
        self.rules.insert(
            Jurisdiction::UK,
            JurisdictionRules {
                requires_kyc: true,
                requires_aml: true,
                requires_sanctions_check: true,
                minimum_verification_level: 3,
                data_retention_days: 1825,
                requires_biometric: false,
            },
        );
        self.rules.insert(
            Jurisdiction::Singapore,
            JurisdictionRules {
                requires_kyc: true,
                requires_aml: true,
                requires_sanctions_check: true,
                minimum_verification_level: 4,
                data_retention_days: 1825,
                requires_biometric: true,
            },
        );
        self.rules.insert(
            Jurisdiction::UAE,
            JurisdictionRules {
                requires_kyc: true,
                requires_aml: true,
                requires_sanctions_check: true,
                minimum_verification_level: 4,
                data_retention_days: 1825,
                requires_biometric: true,
            },
        );
        assert(self@ =~= ComplianceState { rules: default_rules(), ..old(self)@ });
    }

    fn caller_is_verifier(&self, caller: AccountId) -> (r: bool)
        requires
            self.wf(),
        ensures
            r == is_verifier(self@, caller),
    {
        lookup_or(&self.verifiers, &caller, false)
    }

    /// The owner authorizes a verifier.
    pub fn add_verifier(&mut self, caller: AccountId, verifier: AccountId) -> (r: Result<(), ComplianceError>)
        requires
            old(self).wf(),
        ensures
            final(self).wf(),
            caller != old(self)@.owner ==> r == Err::<(), ComplianceError>(ComplianceError::NotAuthorized)
                && final(self)@ == old(self)@,
            caller == old(self)@.owner ==> r == Ok::<(), ComplianceError>(()) && final(self)@ == (ComplianceState {
                verifiers: old(self)@.verifiers.insert(verifier, true),
                ..old(self)@
            }),
    {
        if caller != self.owner {
            return Err(ComplianceError::NotAuthorized);
        }
        self.verifiers.insert(verifier, true);
        assert(self@ =~= ComplianceState { verifiers: old(self)@.verifiers.insert(verifier, true), ..old(self)@ });
        Ok(())
    }

    /// The strength (1 to 5) of a verification with this document, biometric check and
    /// risk score.
    pub fn calculate_verification_level(doc: DocumentType, bio: BiometricMethod, risk_score: u8) -> (r: u8)
        ensures
            r == verification_level(doc, bio, risk_score),
    {
        let mut level: u8 = 1;
        match doc {
            DocumentType::Passport => level = level + 2,
            DocumentType::CorporateDocument => level = level + 2,
            _ => level = level + 1,
        }
        match bio {
            BiometricMethod::NoBiometric => {},
            BiometricMethod::IrisScan => level = level + 2,
            BiometricMethod::MultiFactor => level = level + 3,
            _ => level = level + 1,
        }
        if risk_score < 20 {
            level = level + 1;
        } else if risk_score > 80 {
            level = level.saturating_sub(2);
        }
        if level > 5 {
            5
        } else {
            level
        }
    }

    fn update_kyc_metrics(m: &mut KycMetrics, converted: bool, success: bool)
        ensures
            *final(m) == after_attempt(*old(m), converted, success),
    {
        m.verification_attempts = m.verification_attempts.saturating_add(1);
        if success {
            m.successful_verifications = m.successful_verifications.saturating_add(1);
            if converted {
                m.converted_requests = m.converted_requests.saturating_add(1);
                m.pending_requests = m.pending_requests.saturating_sub(1);
            }
        } else {
            m.failed_verifications = m.failed_verifications.saturating_add(1);
        }
        Self::refresh_kyc_rates(m);
    }

    fn refresh_kyc_rates(m: &mut KycMetrics)
        ensures
            *final(m) == refreshed(*old(m)),
    {
        m.conversion_rate_bips = Self::compute_rate_bips(m.converted_requests, m.requests_created);
        m.verification_rate_bips = Self::compute_rate_bips(m.successful_verifications, m.verification_attempts);
    }

    /// `numerator` per `denominator` in bips, 0 for a zero denominator.
    pub fn compute_rate_bips(numerator: u64, denominator: u64) -> (r: u32)
        ensures
            r == rate_bips(numerator, denominator),
    {
        if denominator == 0 {
            return 0;
        }
        (crate::common::sat_mul64(numerator, 10_000) / denominator) as u32
    }

    fn metrics_for(&self, j: Jurisdiction) -> (r: KycMetrics)
        requires
            self.wf(),
        ensures
            r == metrics_of(self@, j),
    {
        match self.jurisdiction_metrics.get(&j) {
            Some(m) => *m,
            None => KycMetrics {
                requests_created: 0,
                pending_requests: 0,
                verification_attempts: 0,
                successful_verifications: 0,
                failed_verifications: 0,
                converted_requests: 0,
                conversion_rate_bips: 0,
                verification_rate_bips: 0,
            },
        }
    }

    fn record_kyc_verification_attempt(&mut self, j: Jurisdiction, converted: bool, success: bool)
        requires
            old(self).wf(),
        ensures
            final(self).wf(),
            final(self)@ == attempted(old(self)@, j, converted, success),
    {
        Self::update_kyc_metrics(&mut self.kyc_metrics, converted, success);
        let mut m = self.metrics_for(j);
        Self::update_kyc_metrics(&mut m, converted, success);
        self.jurisdiction_metrics.insert(j, m);
        assert(self@ =~= attempted(old(self)@, j, converted, success));
    }

    fn log_audit_event(&mut self, account: AccountId, action: u8, by: AccountId, timestamp: u64)
        requires
            old(self).wf(),
            get_or(old(self)@.audit_count, account, 0u64) < u64::MAX,
        ensures
            final(self).wf(),
            final(self)@ == audited(old(self)@, account, action, by, timestamp),
    {
        let n = lookup_or(&self.audit_count, &account, 0u64);
        self.audit_logs.insert((account, n), AuditLog { account, action, timestamp, verifier: by });
        self.audit_count.insert(account, n + 1);
        assert(self@ =~= audited(old(self)@, account, action, by, timestamp));
    }

    fn complete_pending_request(&mut self, account: AccountId, j: Jurisdiction) -> (r: bool)
        requires
            old(self).wf(),
        ensures
            final(self).wf(),
            r == completes_request(old(self)@, account, j),
            final(self)@ == completed(old(self)@, account, j),
    {
        let id = match self.account_requests.get(&account) {
            Some(id) => *id,
            None => return false,
        };
        let mut q = match self.requests.get(&id) {
            Some(q) => *q,
            None => return false,
        };
        if q.status != VerificationStatus::Pending || q.jurisdiction != j {
            return false;
        }
        q.status = VerificationStatus::Verified;
        self.requests.insert(id, q);
        assert(self@ =~= completed(old(self)@, account, j));
        true
    }

    /// An authorized verifier records the KYC verification of `account` in
    /// `jurisdiction` at `now`, valid for a year, once its strength reaches the
    /// jurisdiction's minimum; a pending request of the account in that jurisdiction is
    /// completed, and the attempt (successful or not) counts in the KYC metrics.
    pub fn submit_verification(
        &mut self,
        caller: AccountId,
        now: u64,
        account: AccountId,
        jurisdiction: Jurisdiction,
        kyc_hash: Hash32,
        risk_level: RiskLevel,
        document_type: DocumentType,
        biometric_method: BiometricMethod,
        risk_score: u8,
    ) -> (r: Result<(), ComplianceError>)
        requires
            old(self).wf(),
            verification_error(old(self)@, jurisdiction, document_type, biometric_method, risk_score) is None ==> {
                &&& now + VERIFICATION_VALIDITY_MS <= u64::MAX
                &&& now + old(self)@.rules[jurisdiction].data_retention_days * DAY_MS <= u64::MAX
                &&& get_or(old(self)@.audit_count, account, 0u64) < u64::MAX
            },
        ensures
            final(self).wf(),
            (final(self)@, r) == verification_outcome(
                old(self)@,
                caller,
                now,
                account,
                jurisdiction,
                kyc_hash,
                risk_level,
                document_type,
                biometric_method,
                risk_score,
            ),
    {
        if !self.caller_is_verifier(caller) {
            return Err(ComplianceError::NotAuthorized);
        }
        let result = self.submit_verification_internal(
            caller,
            now,
            account,
            jurisdiction,
            kyc_hash,
            risk_level,
            document_type,
            biometric_method,
            risk_score,
        );
        match result {
            Ok(()) => {},
            Err(_) => self.record_kyc_verification_attempt(jurisdiction, false, false),
        }
        result
    }

    fn submit_verification_internal(
        &mut self,
        caller: AccountId,
        now: u64,
        account: AccountId,
        jurisdiction: Jurisdiction,
        kyc_hash: Hash32,
        risk_level: RiskLevel,
        document_type: DocumentType,
        biometric_method: BiometricMethod,
        risk_score: u8,
    ) -> (r: Result<(), ComplianceError>)
        requires
            old(self).wf(),
            is_verifier(old(self)@, caller),
            verification_error(old(self)@, jurisdiction, document_type, biometric_method, risk_score) is None ==> {
                &&& now + VERIFICATION_VALIDITY_MS <= u64::MAX
                &&& now + old(self)@.rules[jurisdiction].data_retention_days * DAY_MS <= u64::MAX
                &&& get_or(old(self)@.audit_count, account, 0u64) < u64::MAX
            },
        ensures
            final(self).wf(),
            match verification_error(old(self)@, jurisdiction, document_type, biometric_method, risk_score) {
                Some(e) => r == Err::<(), ComplianceError>(e) && final(self)@ == old(self)@,
                None => (final(self)@, r) == verification_outcome(
                    old(self)@,
                    caller,
                    now,
                    account,
                    jurisdiction,
                    kyc_hash,
                    risk_level,
                    document_type,
                    biometric_method,
                    risk_score,
                ),
            },
    {
        if risk_score > 100 {
            return Err(ComplianceError::InvalidRiskScore);
        }
        let rules = match self.rules.get(&jurisdiction) {
            Some(r) => *r,
            None => return Err(ComplianceError::JurisdictionNotSupported),
        };
        let level = Self::calculate_verification_level(document_type, biometric_method, risk_score);
        if level < rules.minimum_verification_level {
            return Err(ComplianceError::NotVerified);
        }
        let expiry = now + VERIFICATION_VALIDITY_MS;
        let retention_until = now + (rules.data_retention_days as u64) * DAY_MS;
        let d = ComplianceData {
            status: VerificationStatus::Verified,
            jurisdiction,
            risk_level,
            verification_timestamp: now,
            expiry_timestamp: expiry,
            kyc_hash,
            aml_checked: false,
            sanctions_checked: false,
            document_type,
            biometric_method,
            risk_score,
            aml_risk_factors: AMLRiskFactors {
                pep_status: false,
                high_risk_country: false,
                suspicious_transaction_pattern: false,
                large_transaction_volume: false,
                source_of_funds_verified: false,
            },
            sanctions_list_checked: SanctionsList::UN,
            gdpr_consent: ConsentStatus::NotGiven,
            data_encrypted: true,
            consent_timestamp: 0,
            data_retention_until: retention_until,
        };
        self.data.insert(account, d);
        let converted = self.complete_pending_request(account, jurisdiction);
        self.record_kyc_verification_attempt(jurisdiction, converted, true);
        self.log_audit_event(account, 0, caller, now);
        Ok(())
    }

    /// Whether `account` is compliant at `now` (see [`compliant`]).
    pub fn is_compliant(&self, now: u64, account: AccountId) -> (r: bool)
        requires
            self.wf(),
        ensures
            r == compliant(self@, account, now),
    {
        match self.data.get(&account) {
            Some(d) => {
                d.status == VerificationStatus::Verified && d.expiry_timestamp > now && d.risk_level
                    != RiskLevel::Prohibited && d.aml_checked && d.sanctions_checked && d.gdpr_consent
                    == ConsentStatus::Given && now <= d.data_retention_until && self.is_tax_status_compliant(
                    account,
                    now,
                )
            },
            None => false,
        }
    }

    fn is_tax_status_compliant(&self, account: AccountId, now: u64) -> (r: bool)
        requires
            self.wf(),
        ensures
            r == tax_compliant(self@, account, now),
    {
        match self.tax_status.get(&account) {
            Some(t) => t.outstanding_tax == 0 && t.reporting_submitted && t.legal_documents_verified && (
            t.clearance_expiry == 0 || t.clearance_expiry >= now),
            None => true,
        }
    }

    /// Refuses a non-compliant account with `NotVerified`.
    pub fn require_compliance(&self, now: u64, account: AccountId) -> (r: Result<(), ComplianceError>)
        requires
            self.wf(),
        ensures
            r == if compliant(self@, account, now) {
                Ok::<(), ComplianceError>(())
            } else {
                Err::<(), ComplianceError>(ComplianceError::NotVerified)
            },
    {
        if !self.is_compliant(now, account) {
            return Err(ComplianceError::NotVerified);
        }
        Ok(())
    }

    /// The compliance record of `account`, if any.
    pub fn get_compliance_data(&self, account: AccountId) -> (r: Option<ComplianceData>)
        requires
            self.wf(),
        ensures
            r == if self@.data.contains_key(account) {
                Some(self@.data[account])
            } else {
                None::<ComplianceData>
            },
    {
        match self.data.get(&account) {
            Some(d) => Some(*d),
            None => None,
        }
    }

    /// The owner registers (or deactivates) a tax module.
    pub fn set_tax_module(&mut self, caller: AccountId, module: AccountId, active: bool) -> (r: Result<(), ComplianceError>)
        requires
            old(self).wf(),
        ensures
            final(self).wf(),
            caller != old(self)@.owner ==> r == Err::<(), ComplianceError>(ComplianceError::NotAuthorized)
                && final(self)@ == old(self)@,
            caller == old(self)@.owner ==> r == Ok::<(), ComplianceError>(()) && final(self)@ == (ComplianceState {
                tax_modules: old(self)@.tax_modules.insert(module, active),
                ..old(self)@
            }),
    {
        if caller != self.owner {
            return Err(ComplianceError::NotAuthorized);
        }
        self.tax_modules.insert(module, active);
        assert(self@ =~= ComplianceState { tax_modules: old(self)@.tax_modules.insert(module, active), ..old(self)@ });
        Ok(())
    }

    /// The owner, a verifier or an active tax module reports the tax standing of
    /// `account`.
    pub fn update_tax_compliance_status(
        &mut self,
        caller: AccountId,
        now: u64,
        account: AccountId,
        status: TaxComplianceStatus,
    ) -> (r: Result<(), ComplianceError>)
        requires
            old(self).wf(),
            get_or(old(self)@.audit_count, account, 0u64) < u64::MAX,
        ensures
            final(self).wf(),
            ({
                let s = old(self)@;
                if caller != s.owner && !is_verifier(s, caller) && !get_or(s.tax_modules, caller, false) {
                    r == Err::<(), ComplianceError>(ComplianceError::NotAuthorized) && final(self)@ == s
                } else {
                    r == Ok::<(), ComplianceError>(()) && final(self)@ == audited(
                        ComplianceState { tax_status: s.tax_status.insert(account, status), ..s },
                        account,
                        4,
                        caller,
                        now,
                    )
                }
            }),
    {
        if !(caller == self.owner || self.caller_is_verifier(caller) || lookup_or(&self.tax_modules, &caller, false)) {
            return Err(ComplianceError::NotAuthorized);
        }
        self.tax_status.insert(account, status);
        self.log_audit_event(account, 4, caller, now);
        Ok(())
    }

    /// The reported tax standing of `account`, if any.
    pub fn get_tax_compliance_status(&self, account: AccountId) -> (r: Option<TaxComplianceStatus>)
        requires
            self.wf(),
        ensures
            r == if self@.tax_status.contains_key(account) {
                Some(self@.tax_status[account])
            } else {
                None::<TaxComplianceStatus>
            },
    {
        match self.tax_status.get(&account) {
            Some(t) => Some(*t),
            None => None,
        }
    }

    /// A verifier records the AML check of a verified account (see [`aml_updated`]).
    pub fn update_aml_status(
        &mut self,
        caller: AccountId,
        now: u64,
        account: AccountId,
        passed: bool,
        risk_factors: AMLRiskFactors,
    ) -> (r: Result<(), ComplianceError>)
        requires
            old(self).wf(),
            get_or(old(self)@.audit_count, account, 0u64) < u64::MAX,
        ensures
            final(self).wf(),
            ({
                let s = old(self)@;
                if !is_verifier(s, caller) {
                    r == Err::<(), ComplianceError>(ComplianceError::NotAuthorized) && final(self)@ == s
                } else if !s.data.contains_key(account) {
                    r == Err::<(), ComplianceError>(ComplianceError::NotVerified) && final(self)@ == s
                } else {
                    r == Ok::<(), ComplianceError>(()) && final(self)@ == audited(
                        ComplianceState {
                            data: s.data.insert(account, aml_updated(s.data[account], passed, risk_factors)),
                            ..s
                        },
                        account,
                        1,
                        caller,
                        now,
                    )
                }
            }),
    {
        if !self.caller_is_verifier(caller) {
            return Err(ComplianceError::NotAuthorized);
        }
        let mut d = match self.data.get(&account) {
            Some(d) => *d,
            None => return Err(ComplianceError::NotVerified),
        };
        d.aml_checked = passed;
        d.aml_risk_factors = risk_factors;
        let count: u8 = (if risk_factors.pep_status {
            1u8
        } else {
            0u8
        }) + (if risk_factors.high_risk_country {
            1u8
        } else {
            0u8
        }) + (if risk_factors.suspicious_transaction_pattern {
            1u8
        } else {
            0u8
        }) + (if risk_factors.large_transaction_volume {
            1u8
        } else {
            0u8
        });
        if !passed || count >= 3 {
            d.status = VerificationStatus::Rejected;
            d.risk_level = RiskLevel::Prohibited;
        } else if count >= 2 {
            d.risk_level = RiskLevel::High;
        } else if count >= 1 {
            d.risk_level = RiskLevel::Medium;
        }
        self.data.insert(account, d);
        self.log_audit_event(account, 1, caller, now);
        Ok(())
    }

    /// A verifier records the sanctions screening of a verified account (see
    /// [`sanctions_updated`]).
    pub fn update_sanctions_status(
        &mut self,
        caller: AccountId,
        now: u64,
        account: AccountId,
        passed: bool,
        list_checked: SanctionsList,
    ) -> (r: Result<(), ComplianceError>)
        requires
            old(self).wf(),
            get_or(old(self)@.audit_count, account, 0u64) < u64::MAX,
        ensures
            final(self).wf(),
            ({
                let s = old(self)@;
                if !is_verifier(s, caller) {
                    r == Err::<(), ComplianceError>(ComplianceError::NotAuthorized) && final(self)@ == s
                } else if !s.data.contains_key(account) {
                    r == Err::<(), ComplianceError>(ComplianceError::NotVerified) && final(self)@ == s
                } else {
                    r == Ok::<(), ComplianceError>(()) && final(self)@ == audited(
                        ComplianceState {
                            data: s.data.insert(account, sanctions_updated(s.data[account], passed, list_checked)),
                            ..s
                        },
                        account,
                        2,
                        caller,
                        now,
                    )
                }
            }),
    {
        if !self.caller_is_verifier(caller) {
            return Err(ComplianceError::NotAuthorized);
        }
        let mut d = match self.data.get(&account) {
            Some(d) => *d,
            None => return Err(ComplianceError::NotVerified),
        };
        d.sanctions_checked = passed;
        d.sanctions_list_checked = list_checked;
        if !passed {
            d.status = VerificationStatus::Rejected;
            d.risk_level = RiskLevel::Prohibited;
        }
        self.data.insert(account, d);
        self.log_audit_event(account, 2, caller, now);
        Ok(())
    }

    /// A verifier revokes the verification of an account.
    pub fn revoke_verification(&mut self, caller: AccountId, account: AccountId) -> (r: Result<(), ComplianceError>)
        requires
            old(self).wf(),
        ensures
            final(self).wf(),
            ({
                let s = old(self)@;
                if !is_verifier(s, caller) {
                    r == Err::<(), ComplianceError>(ComplianceError::NotAuthorized) && final(self)@ == s
                } else if !s.data.contains_key(account) {
                    r == Err::<(), ComplianceError>(ComplianceError::NotVerified) && final(self)@ == s
                } else {
                    r == Ok::<(), ComplianceError>(()) && final(self)@ == (ComplianceState {
                        data: s.data.insert(
                            account,
                            ComplianceData { status: VerificationStatus::Rejected, ..s.data[account] },
                        ),
                        ..s
                    })
                }
            }),
    {
        if !self.caller_is_verifier(caller) {
            return Err(ComplianceError::NotAuthorized);
        }
        let mut d = match self.data.get(&account) {
            Some(d) => *d,
            None => return Err(ComplianceError::NotVerified),
        };
        d.status = VerificationStatus::Rejected;
        self.data.insert(account, d);
        assert(self@ =~= ComplianceState { data: old(self)@.data.insert(account, d), ..old(self)@ });
        Ok(())
    }

    /// The account itself, or a verifier, records its GDPR consent at `now`.
    pub fn update_consent(&mut self, caller: AccountId, now: u64, account: AccountId, consent: ConsentStatus) -> (r:
        Result<(), ComplianceError>)
        requires
            old(self).wf(),
            get_or(old(self)@.audit_count, account, 0u64) < u64::MAX,
        ensures
            final(self).wf(),
            ({
                let s = old(self)@;
                if caller != account && !is_verifier(s, caller) {
                    r == Err::<(), ComplianceError>(ComplianceError::NotAuthorized) && final(self)@ == s
                } else if !s.data.contains_key(account) {
                    r == Err::<(), ComplianceError>(ComplianceError::NotVerified) && final(self)@ == s
                } else {
                    r == Ok::<(), ComplianceError>(()) && final(self)@ == audited(
                        ComplianceState {
                            data: s.data.insert(
                                account,
                                ComplianceData { gdpr_consent: consent, consent_timestamp: now, ..s.data[account] },
                            ),
                            ..s
                        },
                        account,
                        3,
                        caller,
                        now,
                    )
                }
            }),
    {
        if caller != account && !self.caller_is_verifier(caller) {
            return Err(ComplianceError::NotAuthorized);
        }
        let mut d = match self.data.get(&account) {
            Some(d) => *d,
            None => return Err(ComplianceError::NotVerified),
        };
        d.gdpr_consent = consent;
        d.consent_timestamp = now;
        self.data.insert(account, d);
        self.log_audit_event(account, 3, caller, now);
        Ok(())
    }

    /// Whether the retention period of the record of `account` is over at `now`.
    pub fn check_data_retention(&self, now: u64, account: AccountId) -> (r: bool)
        requires
            self.wf(),
        ensures
            r == (self@.data.contains_key(account) && now > self@.data[account].data_retention_until),
    {
        match self.data.get(&account) {
            Some(d) => now > d.data_retention_until,
            None => false,
        }
    }

    /// The account asks for its record to be erased: allowed once retention is over and
    /// consent withdrawn; the record is then marked expired.
    pub fn request_data_deletion(&mut self, caller: AccountId, now: u64, account: AccountId) -> (r: Result<
        (),
        ComplianceError,
    >)
        requires
            old(self).wf(),
        ensures
            final(self).wf(),
            ({
                let s = old(self)@;
                if caller != account {
                    r == Err::<(), ComplianceError>(ComplianceError::NotAuthorized) && final(self)@ == s
                } else if !(s.data.contains_key(account) && now > s.data[account].data_retention_until) {
                    r == Err::<(), ComplianceError>(ComplianceError::DataRetentionExpired) && final(self)@ == s
                } else if s.data[account].gdpr_consent != ConsentStatus::Withdrawn {
                    r == Err::<(), ComplianceError>(ComplianceError::ConsentNotGiven) && final(self)@ == s
                } else {
                    r == Ok::<(), ComplianceError>(()) && final(self)@ == (ComplianceState {
                        data: s.data.insert(
                            account,
                            ComplianceData { status: VerificationStatus::Expired, ..s.data[account] },
                        ),
                        ..s
                    })
                }
            }),
    {
        if caller != account {
            return Err(ComplianceError::NotAuthorized);
        }
        if !self.check_data_retention(now, account) {
            return Err(ComplianceError::DataRetentionExpired);
        }
        let mut d = match self.data.get(&account) {
            Some(d) => *d,
            None => return Err(ComplianceError::NotVerified),
        };
        if d.gdpr_consent != ConsentStatus::Withdrawn {
            return Err(ComplianceError::ConsentNotGiven);
        }
        d.status = VerificationStatus::Expired;
        self.data.insert(account, d);
        assert(self@ =~= ComplianceState { data: old(self)@.data.insert(account, d), ..old(self)@ });
        Ok(())
    }

    /// A verifier records where the encrypted data of a verified account is kept.
    pub fn store_encrypted_data_hash(&mut self, caller: AccountId, account: AccountId, data_hash: Hash32) -> (r:
        Result<(), ComplianceError>)
        requires
            old(self).wf(),
        ensures
            final(self).wf(),
            ({
                let s = old(self)@;
                if !is_verifier(s, caller) {
                    r == Err::<(), ComplianceError>(ComplianceError::NotAuthorized) && final(self)@ == s
                } else if !s.data.contains_key(account) {
                    r == Err::<(), ComplianceError>(ComplianceError::NotVerified) && final(self)@ == s
                } else {
                    r == Ok::<(), ComplianceError>(()) && final(self)@ == (ComplianceState {
                        data: s.data.insert(account, ComplianceData { data_encrypted: true, ..s.data[account] }),
                        encrypted_data_hashes: s.encrypted_data_hashes.insert(account, data_hash),
                        ..s
                    })
                }
            }),
    {
        if !self.caller_is_verifier(caller) {
            return Err(ComplianceError::NotAuthorized);
        }
        let mut d = match self.data.get(&account) {
            Some(d) => *d,
            None => return Err(ComplianceError::NotVerified),
        };
        d.data_encrypted = true;
        self.data.insert(account, d);
        self.encrypted_data_hashes.insert(account, data_hash);
        assert(self@ =~= ComplianceState {
            data: old(self)@.data.insert(account, d),
            encrypted_data_hashes: old(self)@.encrypted_data_hashes.insert(account, data_hash),
            ..old(self)@
        });
        Ok(())
    }

    /// The owner replaces the rules of a jurisdiction.
    pub fn update_jurisdiction_rules(&mut self, caller: AccountId, jurisdiction: Jurisdiction, rules: JurisdictionRules) -> (r:
        Result<(), ComplianceError>)
        requires
            old(self).wf(),
        ensures
            final(self).wf(),
            caller != old(self)@.owner ==> r == Err::<(), ComplianceError>(ComplianceError::NotAuthorized)
                && final(self)@ == old(self)@,
            caller == old(self)@.owner ==> r == Ok::<(), ComplianceError>(()) && final(self)@ == (ComplianceState {
                rules: old(self)@.rules.insert(jurisdiction, rules),
                ..old(self)@
            }),
    {
        if caller != self.owner {
            return Err(ComplianceError::NotAuthorized);
        }
        self.rules.insert(jurisdiction, rules);
        assert(self@ =~= ComplianceState { rules: old(self)@.rules.insert(jurisdiction, rules), ..old(self)@ });
        Ok(())
    }

    /// The rules of a jurisdiction, if it has any.
    pub fn get_jurisdiction_rules(&self, jurisdiction: Jurisdiction) -> (r: Option<JurisdictionRules>)
        requires
            self.wf(),
        ensures
            r == if self@.rules.contains_key(jurisdiction) {
                Some(self@.rules[jurisdiction])
            } else {
                None::<JurisdictionRules>
            },
    {
        match self.rules.get(&jurisdiction) {
            Some(r) => Some(*r),
            None => None,
        }
    }

    /// `caller` asks for a verification in `jurisdiction`; refused while its previous
    /// request is still pending.
    pub fn create_verification_request(
        &mut self,
        caller: AccountId,
        now: u64,
        jurisdiction: Jurisdiction,
        document_hash: Hash32,
        biometric_hash: Hash32,
    ) -> (r: Result<u64, ComplianceError>)
        requires
            old(self).wf(),
            old(self)@.request_counter < u64::MAX,
        ensures
            final(self).wf(),
            ({
                let s = old(self)@;
                let id = s.request_counter;
                if s.account_requests.contains_key(caller) && s.requests.contains_key(s.account_requests[caller])
                    && s.requests[s.account_requests[caller]].status == VerificationStatus::Pending {
                    r == Err::<u64, ComplianceError>(ComplianceError::AlreadyVerified) && final(self)@ == s
                } else {
                    r == Ok::<u64, ComplianceError>(id) && final(self)@ == (ComplianceState {
                        request_counter: (id + 1) as u64,
                        requests: s.requests.insert(
                            id,
                            VerificationRequest {
                                account: caller,
                                jurisdiction,
                                document_hash,
                                biometric_hash,
                                request_timestamp: now,
                                request_id: id,
                                status: VerificationStatus::Pending,
                            },
                        ),
                        account_requests: s.account_requests.insert(caller, id),
                        kyc_metrics: after_request(s.kyc_metrics),
                        jurisdiction_metrics: s.jurisdiction_metrics.insert(
                            jurisdiction,
                            after_request(metrics_of(s, jurisdiction)),
                        ),
                        ..s
                    })
                }
            }),
    {
        match self.account_requests.get(&caller) {
            Some(existing) => {
                match self.requests.get(existing) {
                    Some(q) => {
                        if q.status == VerificationStatus::Pending {
                            return Err(ComplianceError::AlreadyVerified);
                        }
                    },
                    None => {},
                }
            },
            None => {},
        }
        let id = self.request_counter;
        self.request_counter = self.request_counter + 1;
        let q = VerificationRequest {
            account: caller,
            jurisdiction,
            document_hash,
            biometric_hash,
            request_timestamp: now,
            request_id: id,
            status: VerificationStatus::Pending,
        };
        self.requests.insert(id, q);
        self.account_requests.insert(caller, id);
        self.kyc_metrics.requests_created = self.kyc_metrics.requests_created.saturating_add(1);
        self.kyc_metrics.pending_requests = self.kyc_metrics.pending_requests.saturating_add(1);
        Self::refresh_kyc_rates(&mut self.kyc_metrics);
        let mut m = self.metrics_for(jurisdiction);
        m.requests_created = m.requests_created.saturating_add(1);
        m.pending_requests = m.pending_requests.saturating_add(1);
        Self::refresh_kyc_rates(&mut m);
        self.jurisdiction_metrics.insert(jurisdiction, m);
        assert(self@ =~= ComplianceState {
            request_counter: (id + 1) as u64,
            requests: old(self)@.requests.insert(id, q),
            account_requests: old(self)@.account_requests.insert(caller, id),
            kyc_metrics: after_request(old(self)@.kyc_metrics),
            jurisdiction_metrics: old(self)@.jurisdiction_metrics.insert(
                jurisdiction,
                after_request(metrics_of(old(self)@, jurisdiction)),
            ),
            ..old(self)@
        });
        Ok(id)
    }

    /// Request `request_id`, if there is one.
    pub fn get_verification_request(&self, request_id: u64) -> (r: Option<VerificationRequest>)
        requires
            self.wf(),
        ensures
            r == if self@.requests.contains_key(request_id) {
                Some(self@.requests[request_id])
            } else {
                None::<VerificationRequest>
            },
    {
        match self.requests.get(&request_id) {
            Some(q) => Some(*q),
            None => None,
        }
    }

    /// A verifier answers a pending request with the verification of its account (as
    /// [`ComplianceRegistry::submit_verification`] records it); a successful one marks the
    /// request verified.
    pub fn process_verification_request(
        &mut self,
        caller: AccountId,
        now: u64,
        request_id: u64,
        kyc_hash: Hash32,
        risk_level: RiskLevel,
        document_type: DocumentType,
        biometric_method: BiometricMethod,
        risk_score: u8,
    ) -> (r: Result<(), ComplianceError>)
        requires
            old(self).wf(),
            old(self)@.requests.contains_key(request_id) ==> {
                let q = old(self)@.requests[request_id];
                verification_error(old(self)@, q.jurisdiction, document_type, biometric_method, risk_score) is None
                    ==> {
                    &&& now + VERIFICATION_VALIDITY_MS <= u64::MAX
                    &&& now + old(self)@.rules[q.jurisdiction].data_retention_days * DAY_MS <= u64::MAX
                    &&& get_or(old(self)@.audit_count, q.account, 0u64) < u64::MAX
                }
            },
        ensures
            final(self).wf(),
            ({
                let s = old(self)@;
                if !is_verifier(s, caller) {
                    r == Err::<(), ComplianceError>(ComplianceError::NotAuthorized) && final(self)@ == s
                } else if !s.requests.contains_key(request_id) {
                    r == Err::<(), ComplianceError>(ComplianceError::NotVerified) && final(self)@ == s
                } else if s.requests[request_id].status != VerificationStatus::Pending {
                    r == Err::<(), ComplianceError>(ComplianceError::AlreadyVerified) && final(self)@ == s
                } else {
                    let q = s.requests[request_id];
                    let (s1, r1) = verification_outcome(
                        s,
                        caller,
                        now,
                        q.account,
                        q.jurisdiction,
                        kyc_hash,
                        risk_level,
                        document_type,
                        biometric_method,
                        risk_score,
                    );
                    &&& r == r1
                    &&& final(self)@ == if r1 is Ok {
                        ComplianceState {
                            requests: s1.requests.insert(
                                request_id,
                                VerificationRequest { status: VerificationStatus::Verified, ..q },
                            ),
                            ..s1
                        }
                    } else {
                        s1
                    }
                }
            }),
    {
        if !self.caller_is_verifier(caller) {
            return Err(ComplianceError::NotAuthorized);
        }
        let q = match self.requests.get(&request_id) {
            Some(q) => *q,
            None => return Err(ComplianceError::NotVerified),
        };
        if q.status != VerificationStatus::Pending {
            return Err(ComplianceError::AlreadyVerified);
        }
        let result = self.submit_verification(
            caller,
            now,
            q.account,
            q.jurisdiction,
            kyc_hash,
            risk_level,
            document_type,
            biometric_method,
            risk_score,
        );
        match result {
            Ok(()) => {
                let mut done = q;
                done.status = VerificationStatus::Verified;
                let ghost s1 = self@;
                self.requests.insert(request_id, done);
                assert(self@ =~= ComplianceState { requests: s1.requests.insert(request_id, done), ..s1 });
            },
            Err(_) => {},
        }
        result
    }

    /// The owner registers a service provider at `now`; a KYC or all-round provider
    /// also becomes a verifier.
    pub fn register_service_provider(&mut self, caller: AccountId, now: u64, provider: AccountId, service_type: u8) -> (r:
        Result<(), ComplianceError>)
        requires
            old(self).wf(),
        ensures
            final(self).wf(),
            caller != old(self)@.owner ==> r == Err::<(), ComplianceError>(ComplianceError::NotAuthorized)
                && final(self)@ == old(self)@,
            caller == old(self)@.owner ==> r == Ok::<(), ComplianceError>(()) && final(self)@ == (ComplianceState {
                providers: old(self)@.providers.insert(
                    provider,
                    ServiceProvider { provider_id: provider, service_type, is_active: true, last_update: now },
                ),
                verifiers: if service_type == 0 || service_type == 3 {
                    old(self)@.verifiers.insert(provider, true)
                } else {
                    old(self)@.verifiers
                },
                ..old(self)@
            }),
    {
        if caller != self.owner {
            return Err(ComplianceError::NotAuthorized);
        }
        let p = ServiceProvider { provider_id: provider, service_type, is_active: true, last_update: now };
        self.providers.insert(provider, p);
        if service_type == 0 || service_type == 3 {
            self.verifiers.insert(provider, true);
        }
        assert(self@ =~= ComplianceState {
            providers: old(self)@.providers.insert(provider, p),
            verifiers: if service_type == 0 || service_type == 3 {
                old(self)@.verifiers.insert(provider, true)
            } else {
                old(self)@.verifiers
            },
            ..old(self)@
        });
        Ok(())
    }

    /// The registered provider `provider`, if any.
    pub fn get_service_provider(&self, provider: AccountId) -> (r: Option<ServiceProvider>)
        requires
            self.wf(),
        ensures
            r == if self@.providers.contains_key(provider) {
                Some(self@.providers[provider])
            } else {
                None::<ServiceProvider>
            },
    {
        match self.providers.get(&provider) {
            Some(p) => Some(*p),
            None => None,
        }
    }

    /// The owner sets the zero-knowledge compliance contract.
    pub fn set_zk_compliance_contract(&mut self, caller: AccountId, zk_contract: AccountId) -> (r: Result<
        (),
        ComplianceError,
    >)
        requires
            old(self).wf(),
        ensures
            final(self).wf(),
            caller != old(self)@.owner ==> r == Err::<(), ComplianceError>(ComplianceError::NotAuthorized)
                && final(self)@ == old(self)@,
            caller == old(self)@.owner ==> r == Ok::<(), ComplianceError>(()) && final(self)@ == (ComplianceState {
                zk_compliance_contract: Some(zk_contract),
                ..old(self)@
            }),
    {
        if caller != self.owner {
            return Err(ComplianceError::NotAuthorized);
        }
        self.zk_compliance_contract = Some(zk_contract);
        assert(self@ =~= ComplianceState { zk_compliance_contract: Some(zk_contract), ..old(self)@ });
        Ok(())
    }

    /// The zero-knowledge compliance contract, if set.
    pub fn get_zk_compliance_contract(&self) -> (r: Option<AccountId>)
        ensures
            r == self@.zk_compliance_contract,
    {
        self.zk_compliance_contract
    }

    /// The owner.
    pub fn get_owner(&self) -> (r: AccountId)
        ensures
            r == self@.owner,
    {
        self.owner
    }
}

/// A failed AML check, or one finding three or more risk factors, leaves the account
/// non-compliant whatever the time, until it is verified again.
pub proof fn lemma_aml_failure_blocks_compliance(
    s: ComplianceState,
    account: AccountId,
    passed: bool,
    factors: AMLRiskFactors,
    caller: AccountId,
    at: u64,
    now: u64,
)
    requires
        s.data.contains_key(account),
        !passed || risk_count(factors) >= 3,
    ensures
        !compliant(
            audited(
                ComplianceState { data: s.data.insert(account, aml_updated(s.data[account], passed, factors)), ..s },
                account,
                1,
                caller,
                at,
            ),
            account,
            now,
        ),
{
}

/// A failed sanctions screening leaves the account non-compliant whatever the time.
pub proof fn lemma_sanctions_failure_blocks_compliance(
    s: ComplianceState,
    account: AccountId,
    list: SanctionsList,
    caller: AccountId,
    at: u64,
    now: u64,
)
    requires
        s.data.contains_key(account),
    ensures
        !compliant(
            audited(
                ComplianceState { data: s.data.insert(account, sanctions_updated(s.data[account], false, list)), ..s },
                account,
                2,
                caller,
                at,
            ),
            account,
            now,
        ),
{
}

/// A revoked verification leaves the account non-compliant whatever the time.
pub proof fn lemma_revoked_is_not_compliant(s: ComplianceState, account: AccountId, now: u64)
    requires
        s.data.contains_key(account),
    ensures
        !compliant(
            ComplianceState {
                data: s.data.insert(account, ComplianceData { status: VerificationStatus::Rejected, ..s.data[account] }),
                ..s
            },
            account,
            now,
        ),
{
}

/// Compliance never outlives the verification: an account is not compliant at or after
/// the expiry of its record.
pub proof fn lemma_compliance_expires(s: ComplianceState, account: AccountId, now: u64)
    requires
        s.data.contains_key(account),
        now >= s.data[account].expiry_timestamp,
    ensures
        !compliant(s, account, now),
{
}

} // verus!
