//! Batch screening and the registry's reports: summaries, per-account reports,
//! workflow states, regulatory and KYC figures.
use vstd::prelude::*;

use crate::common::{get_or, lookup_or, AccountId};
use crate::compliance::{
    aml_updated, audited, compliant, AuditLog, is_verifier, metrics_of, risk_count, sanctions_updated,
    tax_compliant, AMLRiskFactors, ComplianceData, ComplianceError, ComplianceOperation,
    ComplianceRegistry, ComplianceState, Jurisdiction, KycMetrics, RiskLevel, SanctionsList,
    VerificationStatus, DAY_MS,
};

verus! {

/// Whether an AML check with these risk factors passes: fewer than three risk factors
/// and a verified source of funds.
pub open spec fn aml_passes(f: AMLRiskFactors) -> bool {
    risk_count(f) < 3 && f.source_of_funds_verified
}

/// One step of a batch AML check: a known account gets the check recorded, an
/// unknown one is passed over.
pub open spec fn aml_step(
    s: ComplianceState,
    caller: AccountId,
    now: u64,
    account: AccountId,
    f: AMLRiskFactors,
) -> ComplianceState {
    if s.data.contains_key(account) {
        audited(
            ComplianceState {
                data: s.data.insert(account, aml_updated(s.data[account], aml_passes(f), f)),
                ..s
            },
            account,
            1,
            caller,
            now,
        )
    } else {
        s
    }
}

/// The state after the first `n` steps of a batch AML check.
pub open spec fn aml_batch(
    s: ComplianceState,
    caller: AccountId,
    now: u64,
    accounts: Seq<AccountId>,
    factors: Seq<AMLRiskFactors>,
    n: nat,
) -> ComplianceState
    decreases n,
{
    if n == 0 {
        s
    } else {
        aml_step(
            aml_batch(s, caller, now, accounts, factors, (n - 1) as nat),
            caller,
            now,
            accounts[n - 1],
            factors[n - 1],
        )
    }
}

/// One step of a batch sanctions screening of a known account.
pub open spec fn sanctions_step(
    s: ComplianceState,
    caller: AccountId,
    now: u64,
    account: AccountId,
    passed: bool,
    list: SanctionsList,
) -> ComplianceState {
    audited(
        ComplianceState {
            data: s.data.insert(account, sanctions_updated(s.data[account], passed, list)),
            ..s
        },
        account,
        2,
        caller,
        now,
    )
}

/// The state after the first `n` steps of a batch sanctions screening.
pub open spec fn sanctions_batch(
    s: ComplianceState,
    caller: AccountId,
    now: u64,
    accounts: Seq<AccountId>,
    results: Seq<bool>,
    list: SanctionsList,
    n: nat,
) -> ComplianceState
    decreases n,
{
    if n == 0 {
        s
    } else {
        sanctions_step(
            sanctions_batch(s, caller, now, accounts, results, list, (n - 1) as nat),
            caller,
            now,
            accounts[n - 1],
            results[n - 1],
            list,
        )
    }
}

/// How many of the first `n` accounts a batch screening gets through: it stops at the
/// first account the registry does not know.
pub open spec fn screened_prefix(s: ComplianceState, accounts: Seq<AccountId>, n: nat) -> nat
    decreases n,
{
    if n == 0 {
        0
    } else {
        let p = screened_prefix(s, accounts, (n - 1) as nat);
        if p < n - 1 {
            p
        } else if s.data.contains_key(accounts[n - 1]) {
            n
        } else {
            (n - 1) as nat
        }
    }
}

proof fn lemma_screened_prefix_bound(s: ComplianceState, accounts: Seq<AccountId>, n: nat)
    ensures
        screened_prefix(s, accounts, n) <= n,
        screened_prefix(s, accounts, n) < n ==> forall|m: nat|
            n <= m ==> #[trigger] screened_prefix(s, accounts, m) == screened_prefix(s, accounts, n),
    decreases n,
{
    if n > 0 {
        lemma_screened_prefix_bound(s, accounts, (n - 1) as nat);
    }
    if screened_prefix(s, accounts, n) < n {
        assert forall|m: nat| n <= m implies #[trigger] screened_prefix(s, accounts, m)
            == screened_prefix(s, accounts, n) by {
            lemma_screened_prefix_stays(s, accounts, n, m);
        }
    }
}

proof fn lemma_screened_prefix_stays(s: ComplianceState, accounts: Seq<AccountId>, n: nat, m: nat)
    requires
        screened_prefix(s, accounts, n) < n,
        n <= m,
    ensures
        screened_prefix(s, accounts, m) == screened_prefix(s, accounts, n),
    decreases m,
{
    if m > n {
        lemma_screened_prefix_stays(s, accounts, n, (m - 1) as nat);
    }
}

/// Whether `account` may perform `operation` at `now` under the rules of its
/// jurisdiction, and the refusal when not.
pub open spec fn transaction_check(s: ComplianceState, now: u64, account: AccountId, operation: ComplianceOperation) -> Result<
    (),
    ComplianceError,
> {
    if !compliant(s, account, now) || !s.data.contains_key(account) {
        Err(ComplianceError::NotVerified)
    } else if !s.rules.contains_key(s.data[account].jurisdiction) {
        Err(ComplianceError::JurisdictionNotSupported)
    } else {
        let d = s.data[account];
        let rules = s.rules[d.jurisdiction];
        match operation {
            ComplianceOperation::ListForSale
            | ComplianceOperation::Purchase
            | ComplianceOperation::BridgeTransfer => {
                if d.risk_level == RiskLevel::Prohibited {
                    Err(ComplianceError::HighRisk)
                } else if !d.aml_checked || !d.sanctions_checked {
                    Err(ComplianceError::NotVerified)
                } else {
                    Ok(())
                }
            },
            _ => {
                if !rules.requires_kyc || !rules.requires_aml || !rules.requires_sanctions_check {
                    Ok(())
                } else if !d.aml_checked || !d.sanctions_checked {
                    Err(ComplianceError::NotVerified)
                } else {
                    Ok(())
                }
            },
        }
    }
}

/// A compliance report on one account.
#[derive(Clone, Copy, Debug, PartialEq, Eq, Structural)]
pub struct ComplianceReport {
    pub account: AccountId,
    pub is_compliant: bool,
    pub jurisdiction: Jurisdiction,
    pub status: VerificationStatus,
    pub risk_level: RiskLevel,
    pub kyc_verified: bool,
    pub aml_checked: bool,
    pub sanctions_checked: bool,
    pub audit_log_count: u64,
    pub last_audit_timestamp: u64,
    pub verification_expiry: u64,
    pub tax_compliant: bool,
    pub outstanding_tax: u128,
}

/// Where a verification request stands in the workflow.
#[derive(Clone, Copy, Debug, PartialEq, Eq, Structural)]
pub enum WorkflowStatus {
    Pending,
    InProgress,
    Verified,
    Rejected,
    Expired,
}

/// A regulator's summary of a jurisdiction over a period.
#[derive(Clone, Copy, Debug, PartialEq, Eq, Structural)]
pub struct RegulatoryReport {
    pub jurisdiction: Jurisdiction,
    pub period_start: u64,
    pub period_end: u64,
    pub verifications_count: u64,
    pub compliant_accounts: u64,
    pub aml_checks_count: u64,
    pub sanctions_checks_count: u64,
}

/// A summary of sanctions screening, with the lists screened against by number.
#[derive(Clone, Debug)]
pub struct SanctionsScreeningSummary {
    pub total_screened: u64,
    pub passed: u64,
    pub failed: u64,
    pub lists_checked: Vec<u8>,
}

/// The timestamp of the latest audit entry of `account`, 0 when it has none.
pub open spec fn last_audit_timestamp(s: ComplianceState, account: AccountId) -> u64 {
    let n = get_or(s.audit_count, account, 0u64);
    if n > 0 && s.audit_logs.contains_key((account, (n - 1) as u64)) {
        s.audit_logs[(account, (n - 1) as u64)].timestamp
    } else {
        0
    }
}

/// The report on `account` at `now`, if the registry has a record of it.
pub open spec fn report_of(s: ComplianceState, now: u64, account: AccountId) -> Option<ComplianceReport> {
    if s.data.contains_key(account) {
        let d = s.data[account];
        Some(
            ComplianceReport {
                account,
                is_compliant: compliant(s, account, now),
                jurisdiction: d.jurisdiction,
                status: d.status,
                risk_level: d.risk_level,
                kyc_verified: d.status == VerificationStatus::Verified,
                aml_checked: d.aml_checked,
                sanctions_checked: d.sanctions_checked,
                audit_log_count: get_or(s.audit_count, account, 0u64),
                last_audit_timestamp: last_audit_timestamp(s, account),
                verification_expiry: d.expiry_timestamp,
                tax_compliant: tax_compliant(s, account, now),
                outstanding_tax: if s.tax_status.contains_key(account) {
                    s.tax_status[account].outstanding_tax
                } else {
                    0
                },
            },
        )
    } else {
        None
    }
}

/// The workflow state that a request's verification status shows.
pub open spec fn workflow_of(status: VerificationStatus) -> WorkflowStatus {
    match status {
        VerificationStatus::Pending => WorkflowStatus::Pending,
        VerificationStatus::Verified => WorkflowStatus::Verified,
        VerificationStatus::Rejected => WorkflowStatus::Rejected,
        VerificationStatus::Expired => WorkflowStatus::Expired,
        VerificationStatus::NotVerified => WorkflowStatus::InProgress,
    }
}

/// The audit entries of `account` with numbers in `lo..hi`, oldest first, skipping
/// numbers that hold none.
pub open spec fn logs_between(s: ComplianceState, account: AccountId, lo: nat, hi: nat) -> Seq<AuditLog>
    decreases hi,
{
    if hi <= lo {
        Seq::empty()
    } else {
        let rest = logs_between(s, account, lo, (hi - 1) as nat);
        if s.audit_logs.contains_key((account, (hi - 1) as u64)) {
            rest.push(s.audit_logs[(account, (hi - 1) as u64)])
        } else {
            rest
        }
    }
}

/// Whether the verification of `account` has to be renewed at `now`: it has no
/// record, its record is marked expired, or it expires within `days` days.
pub open spec fn needs_renewal(s: ComplianceState, now: u64, account: AccountId, days: u32) -> bool {
    if s.data.contains_key(account) {
        let d = s.data[account];
        let window = days * DAY_MS;
        let start = if d.expiry_timestamp >= window {
            d.expiry_timestamp - window
        } else {
            0
        };
        now >= start || d.status == VerificationStatus::Expired
    } else {
        true
    }
}

impl ComplianceRegistry {
    fn aml_check_passes(f: &AMLRiskFactors) -> (r: bool)
        ensures
            r == aml_passes(*f),
    {
        let count: u8 = (if f.pep_status {
            1u8
        } else {
            0u8
        }) + (if f.high_risk_country {
            1u8
        } else {
            0u8
        }) + (if f.suspicious_transaction_pattern {
            1u8
        } else {
            0u8
        }) + (if f.large_transaction_volume {
            1u8
        } else {
            0u8
        });
        count < 3 && f.source_of_funds_verified
    }

    /// A verifier runs AML checks on a batch of accounts: each result says whether the
    /// factors pass (see [`aml_passes`]), and each account the registry knows gets the
    /// check recorded, in order (see [`aml_batch`]).
    pub fn batch_aml_check(
        &mut self,
        caller: AccountId,
        now: u64,
        accounts: Vec<AccountId>,
        risk_factors_list: Vec<AMLRiskFactors>,
    ) -> (r: Result<Vec<bool>, ComplianceError>)
        requires
            old(self).wf(),
            forall|a: AccountId|
                #[trigger] get_or(old(self)@.audit_count, a, 0u64) + accounts@.len() <= u64::MAX,
        ensures
            final(self).wf(),
            ({
                let s = old(self)@;
                if !is_verifier(s, caller) {
                    r == Err::<Vec<bool>, ComplianceError>(ComplianceError::NotAuthorized) && final(self)@ == s
                } else if accounts@.len() != risk_factors_list@.len() {
                    r == Err::<Vec<bool>, ComplianceError>(ComplianceError::NotVerified) && final(self)@ == s
                } else {
                    &&& r is Ok
                    &&& r->Ok_0@.len() == accounts@.len()
                    &&& forall|i: int|
                        0 <= i < accounts@.len() ==> #[trigger] r->Ok_0@[i] == aml_passes(
                            risk_factors_list@[i],
                        )
                    &&& final(self)@ == aml_batch(
                        s,
                        caller,
                        now,
                        accounts@,
                        risk_factors_list@,
                        accounts@.len(),
                    )
                }
            }),
    {
        if !self.caller_is_verifier(caller) {
            return Err(ComplianceError::NotAuthorized);
        }
        if accounts.len() != risk_factors_list.len() {
            return Err(ComplianceError::NotVerified);
        }
        let ghost s0 = self@;
        let mut results: Vec<bool> = Vec::new();
        let mut i: usize = 0;
        while i < accounts.len()
            invariant
                self.wf(),
                s0 == old(self)@,
                i <= accounts.len(),
                accounts.len() == risk_factors_list.len(),
                is_verifier(s0, caller),
                self@.verifiers == s0.verifiers,
                self@ == aml_batch(s0, caller, now, accounts@, risk_factors_list@, i as nat),
                results@.len() == i,
                forall|j: int| 0 <= j < i ==> #[trigger] results@[j] == aml_passes(risk_factors_list@[j]),
                forall|a: AccountId|
                    #[trigger] get_or(s0.audit_count, a, 0u64) + accounts@.len() <= u64::MAX,
                forall|a: AccountId|
                    #[trigger] get_or(self@.audit_count, a, 0u64) <= get_or(s0.audit_count, a, 0u64) + i,
            decreases accounts.len() - i,
        {
            let account = accounts[i];
            let f = risk_factors_list[i];
            let passed = Self::aml_check_passes(&f);
            results.push(passed);
            let ghost before = self@;
            if self.data.get(&account).is_some() {
                assert(get_or(before.audit_count, account, 0u64) < u64::MAX) by {
                    assert(get_or(before.audit_count, account, 0u64) <= get_or(s0.audit_count, account, 0u64) + i);
                    assert(get_or(s0.audit_count, account, 0u64) + accounts@.len() <= u64::MAX);
                }
                match self.update_aml_status(caller, now, account, passed, f) {
                    Ok(()) => {},
                    Err(e) => {
                        return Err(e);
                    },
                }
            }
            proof {
                assert(self@ == aml_step(before, caller, now, account, f));
                assert forall|a: AccountId|
                    #[trigger] get_or(self@.audit_count, a, 0u64) <= get_or(s0.audit_count, a, 0u64) + i
                        + 1 by {
                    assert(get_or(before.audit_count, a, 0u64) <= get_or(s0.audit_count, a, 0u64) + i);
                }
            }
            i = i + 1;
        }
        Ok(results)
    }

    /// A verifier records the results of a batch sanctions screening against `list`,
    /// in order; it stops with `NotVerified` at the first account the registry does
    /// not know, keeping what it recorded before it.
    pub fn batch_sanctions_check(
        &mut self,
        caller: AccountId,
        now: u64,
        accounts: Vec<AccountId>,
        list_checked: SanctionsList,
        results: Vec<bool>,
    ) -> (r: Result<(), ComplianceError>)
        requires
            old(self).wf(),
            forall|a: AccountId|
                #[trigger] get_or(old(self)@.audit_count, a, 0u64) + accounts@.len() <= u64::MAX,
        ensures
            final(self).wf(),
            ({
                let s = old(self)@;
                let p = screened_prefix(s, accounts@, accounts@.len());
                if !is_verifier(s, caller) {
                    r == Err::<(), ComplianceError>(ComplianceError::NotAuthorized) && final(self)@ == s
                } else if accounts@.len() != results@.len() {
                    r == Err::<(), ComplianceError>(ComplianceError::NotVerified) && final(self)@ == s
                } else {
                    &&& final(self)@ == sanctions_batch(s, caller, now, accounts@, results@, list_checked, p)
                    &&& r == if p == accounts@.len() {
                        Ok::<(), ComplianceError>(())
                    } else {
                        Err::<(), ComplianceError>(ComplianceError::NotVerified)
                    }
                }
            }),
    {
        if !self.caller_is_verifier(caller) {
            return Err(ComplianceError::NotAuthorized);
        }
        if accounts.len() != results.len() {
            return Err(ComplianceError::NotVerified);
        }
        let ghost s0 = self@;
        let mut i: usize = 0;
        while i < accounts.len()
            invariant
                self.wf(),
                s0 == old(self)@,
                i <= accounts.len(),
                accounts.len() == results.len(),
                is_verifier(s0, caller),
                self@.verifiers == s0.verifiers,
                screened_prefix(s0, accounts@, i as nat) == i,
                self@ == sanctions_batch(s0, caller, now, accounts@, results@, list_checked, i as nat),
                forall|a: AccountId| #[trigger] self@.data.contains_key(a) == s0.data.contains_key(a),
                forall|a: AccountId|
                    #[trigger] get_or(s0.audit_count, a, 0u64) + accounts@.len() <= u64::MAX,
                forall|a: AccountId|
                    #[trigger] get_or(self@.audit_count, a, 0u64) <= get_or(s0.audit_count, a, 0u64) + i,
            decreases accounts.len() - i,
        {
            let account = accounts[i];
            let passed = results[i];
            let ghost before = self@;
            assert(get_or(before.audit_count, account, 0u64) < u64::MAX) by {
                assert(get_or(before.audit_count, account, 0u64) <= get_or(s0.audit_count, account, 0u64) + i);
                assert(get_or(s0.audit_count, account, 0u64) + accounts@.len() <= u64::MAX);
            }
            match self.update_sanctions_status(caller, now, account, passed, list_checked) {
                Ok(()) => {},
                Err(e) => {
                    proof {
                        assert(!s0.data.contains_key(accounts@[i as int]));
                        assert(screened_prefix(s0, accounts@, (i + 1) as nat) == i);
                        lemma_screened_prefix_bound(s0, accounts@, (i + 1) as nat);
                        assert(screened_prefix(s0, accounts@, accounts@.len()) == i);
                    }
                    return Err(e);
                },
            }
            proof {
                assert(s0.data.contains_key(accounts@[i as int]));
                assert(self@ == sanctions_step(before, caller, now, account, passed, list_checked));
                assert forall|a: AccountId|
                    #[trigger] get_or(self@.audit_count, a, 0u64) <= get_or(s0.audit_count, a, 0u64) + i
                        + 1 by {
                    assert(get_or(before.audit_count, a, 0u64) <= get_or(s0.audit_count, a, 0u64) + i);
                }
                assert forall|a: AccountId| #[trigger] self@.data.contains_key(a) == s0.data.contains_key(
                    a,
                ) by {
                    assert(before.data.contains_key(a) == s0.data.contains_key(a));
                }
            }
            i = i + 1;
        }
        Ok(())
    }
    /// The latest `limit` audit entries of `account`, oldest first.
    pub fn get_audit_logs(&self, account: AccountId, limit: u64) -> (r: Vec<AuditLog>)
        requires
            self.wf(),
        ensures
            ({
                let n = get_or(self@.audit_count, account, 0u64);
                let start = if n >= limit {
                    n - limit
                } else {
                    0
                };
                r@ == logs_between(self@, account, start as nat, n as nat)
            }),
    {
        let count = lookup_or(&self.audit_count, &account, 0u64);
        let start = count.saturating_sub(limit);
        let mut logs: Vec<AuditLog> = Vec::new();
        let mut i = start;
        while i < count
            invariant
                self.wf(),
                count == get_or(self@.audit_count, account, 0u64),
                start <= i <= count,
                logs@ == logs_between(self@, account, start as nat, i as nat),
            decreases count - i,
        {
            match self.audit_logs.get(&(account, i)) {
                Some(l) => logs.push(*l),
                None => {},
            }
            i = i + 1;
        }
        logs
    }

    /// Each account with whether it is compliant at `now`.
    pub fn get_compliance_summary(&self, now: u64, accounts: Vec<AccountId>) -> (r: Vec<(AccountId, bool)>)
        requires
            self.wf(),
        ensures
            r@.len() == accounts@.len(),
            forall|i: int|
                0 <= i < accounts@.len() ==> #[trigger] r@[i] == (accounts@[i], compliant(self@, accounts@[i], now)),
    {
        let mut out: Vec<(AccountId, bool)> = Vec::new();
        let mut i: usize = 0;
        while i < accounts.len()
            invariant
                self.wf(),
                i <= accounts.len(),
                out@.len() == i,
                forall|j: int|
                    0 <= j < i ==> #[trigger] out@[j] == (accounts@[j], compliant(self@, accounts@[j], now)),
            decreases accounts.len() - i,
        {
            let a = accounts[i];
            let c = self.is_compliant(now, a);
            out.push((a, c));
            i = i + 1;
        }
        out
    }

    /// Whether `account` has to be verified again at `now` (see [`needs_renewal`]).
    pub fn needs_reverification(&self, now: u64, account: AccountId, days_threshold: u32) -> (r: bool)
        requires
            self.wf(),
        ensures
            r == needs_renewal(self@, now, account, days_threshold),
    {
        match self.data.get(&account) {
            Some(d) => {
                assert(days_threshold * DAY_MS <= u32::MAX * DAY_MS) by (nonlinear_arith)
                    requires
                        days_threshold <= u32::MAX,
                ;
                let window: u64 = (days_threshold as u64) * DAY_MS;
                let start = d.expiry_timestamp.saturating_sub(window);
                now >= start || d.status == VerificationStatus::Expired
            },
            None => true,
        }
    }

    /// The accounts due for verification again; the registry keeps no index of them,
    /// so the list is empty and monitoring is left to indexers off chain.
    pub fn get_accounts_needing_reverification(&self, _limit: u32) -> (r: Vec<AccountId>)
        ensures
            r@.len() == 0,
    {
        Vec::new()
    }

    /// Whether `account` may perform `operation` at `now` (see [`transaction_check`]).
    pub fn check_transaction_compliance(&self, now: u64, account: AccountId, operation: ComplianceOperation) -> (r:
        Result<(), ComplianceError>)
        requires
            self.wf(),
        ensures
            r == transaction_check(self@, now, account, operation),
    {
        if !self.is_compliant(now, account) {
            return Err(ComplianceError::NotVerified);
        }
        let d = match self.data.get(&account) {
            Some(d) => *d,
            None => return Err(ComplianceError::NotVerified),
        };
        let rules = match self.rules.get(&d.jurisdiction) {
            Some(x) => *x,
            None => return Err(ComplianceError::JurisdictionNotSupported),
        };
        match operation {
            ComplianceOperation::ListForSale
            | ComplianceOperation::Purchase
            | ComplianceOperation::BridgeTransfer => {
                if d.risk_level == RiskLevel::Prohibited {
                    return Err(ComplianceError::HighRisk);
                }
                if !d.aml_checked || !d.sanctions_checked {
                    return Err(ComplianceError::NotVerified);
                }
            },
            _ => {
                if !rules.requires_kyc || !rules.requires_aml || !rules.requires_sanctions_check {
                    return Ok(());
                }
                if !d.aml_checked || !d.sanctions_checked {
                    return Err(ComplianceError::NotVerified);
                }
            },
        }
        Ok(())
    }

    /// The report on `account` at `now` (see [`report_of`]).
    pub fn get_compliance_report(&self, now: u64, account: AccountId) -> (r: Option<ComplianceReport>)
        requires
            self.wf(),
        ensures
            r == report_of(self@, now, account),
    {
        let d = match self.data.get(&account) {
            Some(d) => *d,
            None => return None,
        };
        let count = lookup_or(&self.audit_count, &account, 0u64);
        let last = if count > 0 {
            match self.audit_logs.get(&(account, count - 1)) {
                Some(l) => l.timestamp,
                None => 0,
            }
        } else {
            0
        };
        let outstanding = match self.tax_status.get(&account) {
            Some(t) => t.outstanding_tax,
            None => 0,
        };
        Some(
            ComplianceReport {
                account,
                is_compliant: self.is_compliant(now, account),
                jurisdiction: d.jurisdiction,
                status: d.status,
                risk_level: d.risk_level,
                kyc_verified: d.status == VerificationStatus::Verified,
                aml_checked: d.aml_checked,
                sanctions_checked: d.sanctions_checked,
                audit_log_count: count,
                last_audit_timestamp: last,
                verification_expiry: d.expiry_timestamp,
                tax_compliant: self.is_tax_status_compliant(account, now),
                outstanding_tax: outstanding,
            },
        )
    }

    /// Where request `request_id` stands (see [`workflow_of`]).
    pub fn get_verification_workflow_status(&self, request_id: u64) -> (r: Option<WorkflowStatus>)
        requires
            self.wf(),
        ensures
            r == if self@.requests.contains_key(request_id) {
                Some(workflow_of(self@.requests[request_id].status))
            } else {
                None::<WorkflowStatus>
            },
    {
        match self.requests.get(&request_id) {
            Some(q) => Some(
                match q.status {
                    VerificationStatus::Pending => WorkflowStatus::Pending,
                    VerificationStatus::Verified => WorkflowStatus::Verified,
                    VerificationStatus::Rejected => WorkflowStatus::Rejected,
                    VerificationStatus::Expired => WorkflowStatus::Expired,
                    VerificationStatus::NotVerified => WorkflowStatus::InProgress,
                },
            ),
            None => None,
        }
    }

    /// The regulator's report on `jurisdiction` for a period: the successful
    /// verifications in it so far; the other counts are not kept and read 0.
    pub fn get_regulatory_report(&self, jurisdiction: Jurisdiction, period_start: u64, period_end: u64) -> (r:
        RegulatoryReport)
        requires
            self.wf(),
        ensures
            r == (RegulatoryReport {
                jurisdiction,
                period_start,
                period_end,
                verifications_count: metrics_of(self@, jurisdiction).successful_verifications,
                compliant_accounts: 0,
                aml_checks_count: 0,
                sanctions_checks_count: 0,
            }),
    {
        let m = self.get_jurisdiction_kyc_metrics(jurisdiction);
        RegulatoryReport {
            jurisdiction,
            period_start,
            period_end,
            verifications_count: m.successful_verifications,
            compliant_accounts: 0,
            aml_checks_count: 0,
            sanctions_checks_count: 0,
        }
    }

    /// The registry-wide KYC funnel figures.
    pub fn get_kyc_metrics(&self) -> (r: KycMetrics)
        ensures
            r == self@.kyc_metrics,
    {
        self.kyc_metrics
    }

    /// The KYC funnel figures of `jurisdiction`, all zero when it has none.
    pub fn get_jurisdiction_kyc_metrics(&self, jurisdiction: Jurisdiction) -> (r: KycMetrics)
        requires
            self.wf(),
        ensures
            r == metrics_of(self@, jurisdiction),
    {
        match self.jurisdiction_metrics.get(&jurisdiction) {
            Some(m) => *m,
            None => KycMetrics {
                requests_created: 0,
                pending_requests: 0,
                verification_attempts: 0,
                successful_verifications: 0,
                failed_verifications: 0,
                converted_requests: 0,
                conversion_rate_bips: 0,
                verification_rate_bips: 0,
            },
        }
    }

    /// The sanctions screening summary: no counts are kept, and the lists screened
    /// against are numbered 0 to 6 (UN, OFAC, EU, UK, Singapore, UAE, several).
    pub fn get_sanctions_screening_summary(&self) -> (r: SanctionsScreeningSummary)
        ensures
            r.total_screened == 0,
            r.passed == 0,
            r.failed == 0,
            r.lists_checked@ == seq![0u8, 1u8, 2u8, 3u8, 4u8, 5u8, 6u8],
    {
        SanctionsScreeningSummary { total_screened: 0, passed: 0, failed: 0, lists_checked: vec![0u8, 1, 2, 3, 4, 5, 6] }
    }

    /// The compliance check that also consults the zero-knowledge contract when one is
    /// set; that contract is not called, so the outcome is the ordinary check's.
    pub fn enhanced_compliance_check(&self, now: u64, account: AccountId) -> (r: Result<(), ComplianceError>)
        requires
            self.wf(),
        ensures
            r == if compliant(self@, account, now) {
                Ok::<(), ComplianceError>(())
            } else {
                Err::<(), ComplianceError>(ComplianceError::NotVerified)
            },
    {
        if !self.is_compliant(now, account) {
            return Err(ComplianceError::NotVerified);
        }
        Ok(())
    }
}

} // verus!
