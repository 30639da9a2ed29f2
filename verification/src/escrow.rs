//! Property escrow: a buyer funds an escrow, its participants sign off, conditions are
//! checked and disputes settled, and the funds go to the seller or back to the buyer.
//! Transfers of large amounts wait for a second round of approvals.
use vstd::prelude::*;
use vstd::string::StringExecFns;

pub mod approvals;
pub mod transfers;

use crate::text::{append_decimal, decimal};
use crate::common::{
    get_or, is_listed, listed, lookup_or, AccountId, Hash32, ReentrancyGuard, Table, TableKey,
};

verus! {

/// Why an escrow operation was refused.
#[derive(Clone, Copy, Debug, PartialEq, Eq, Structural)]
pub enum EscrowError {
    EscrowNotFound,
    Unauthorized,
    InvalidStatus,
    InvalidConfiguration,
    AlreadySigned,
    DisputeActive,
    DisputeNotFound,
    TimeLockActive,
    ConditionsNotMet,
    ConditionNotFound,
    DocumentNotFound,
    SignatureThresholdNotMet,
    LargeTransferApprovalRequired,
    InsufficientFunds,
    InvalidFeeAmount,
    ApprovalRequestNotFound,
    ApprovalNotComplete,
    ApprovalRequestExpired,
    InvalidApprovalType,
    ReentrantCall,
}

/// Where an escrow stands.
#[derive(Clone, Copy, Debug, PartialEq, Eq, Structural)]
pub enum EscrowStatus {
    Created,
    Funded,
    Active,
    Released,
    Refunded,
    Disputed,
    Cancelled,
}

/// What a signature approves.
#[derive(Clone, Copy, Debug, PartialEq, Eq, Structural)]
pub enum ApprovalType {
    Release,
    Refund,
    EmergencyOverride,
}

/// How many extra approvals a transfer needs, by its size.
#[derive(Clone, Copy, Debug, PartialEq, Eq, Structural)]
pub enum TransferApprovalTier {
    /// Below the large-transfer threshold: no extra approval.
    Standard,
    /// At or above the large-transfer threshold: two approvals.
    Large,
    /// At or above the very-large-transfer threshold: three approvals.
    VeryLarge,
}

/// Where a large-transfer approval request stands.
#[derive(Clone, Copy, Debug, PartialEq, Eq, Structural)]
pub enum LargeTransferStatus {
    Pending,
    Approved,
    Executed,
    Cancelled,
    Expired,
}

/// Transfers of at least this much need two approvals, unless the admin set another
/// threshold.
pub const LARGE_TRANSFER_THRESHOLD: u128 = 1_000_000_000_000_000;

/// Transfers of at least this much need three approvals, unless the admin set another
/// threshold.
pub const VERY_LARGE_TRANSFER_THRESHOLD: u128 = 10_000_000_000_000_000;

/// Blocks a large-transfer request stays open for approvals.
pub const LARGE_TRANSFER_EXPIRY_BLOCKS: u64 = 100_800;

/// An escrow as stored: everything but its participants.
#[derive(Clone, Copy, Debug, PartialEq, Eq, Structural)]
pub struct EscrowRecord {
    pub id: u64,
    pub property_id: u64,
    pub buyer: AccountId,
    pub seller: AccountId,
    pub amount: u128,
    pub deposited_amount: u128,
    pub status: EscrowStatus,
    pub created_at: u64,
    pub completed_at: Option<u64>,
    pub release_time_lock: Option<u64>,
    pub total_released: u128,
}

/// An escrow with its participants.
pub struct EscrowData {
    pub id: u64,
    pub property_id: u64,
    pub buyer: AccountId,
    pub seller: AccountId,
    pub amount: u128,
    pub deposited_amount: u128,
    pub status: EscrowStatus,
    pub created_at: u64,
    pub completed_at: Option<u64>,
    pub release_time_lock: Option<u64>,
    pub participants: Vec<AccountId>,
    /// Total already paid out in partial releases.
    pub total_released: u128,
}

/// Who signs for an escrow and how many signatures an approval needs.
pub struct MultiSigConfig {
    pub required_signatures: u8,
    pub signers: Vec<AccountId>,
}

/// A condition that must be met before funds are released.
pub struct Condition {
    pub id: u64,
    pub description: String,
    pub met: bool,
    pub verified_by: Option<AccountId>,
    pub verified_at: Option<u64>,
}

impl Condition {
    /// A field-by-field copy.
    pub fn copy(&self) -> (r: Condition)
        ensures
            r == *self,
    {
        Condition {
            id: self.id,
            description: self.description.clone(),
            met: self.met,
            verified_by: self.verified_by,
            verified_at: self.verified_at,
        }
    }
}

/// A dispute raised on an escrow.
pub struct DisputeInfo {
    pub escrow_id: u64,
    pub raised_by: AccountId,
    pub reason: String,
    pub raised_at: u64,
    pub resolved: bool,
    pub resolution: Option<String>,
}

impl DisputeInfo {
    /// A field-by-field copy.
    pub fn copy(&self) -> (r: DisputeInfo)
        ensures
            r == *self,
    {
        DisputeInfo {
            escrow_id: self.escrow_id,
            raised_by: self.raised_by,
            reason: self.reason.clone(),
            raised_at: self.raised_at,
            resolved: self.resolved,
            resolution: match &self.resolution {
                Some(s) => Some(s.clone()),
                None => None,
            },
        }
    }
}

/// One line of an escrow's audit trail: who did what, when.
pub struct AuditEntry {
    pub timestamp: u64,
    pub actor: AccountId,
    pub action: String,
    pub details: String,
}

/// What an audit entry says, with its texts as character sequences.
pub struct AuditRecord {
    pub timestamp: u64,
    pub actor: AccountId,
    pub action: Seq<char>,
    pub details: Seq<char>,
}

impl AuditEntry {
    /// What this entry says.
    pub open spec fn record(self) -> AuditRecord {
        AuditRecord { timestamp: self.timestamp, actor: self.actor, action: self.action@, details: self.details@ }
    }

    /// A field-by-field copy.
    pub fn copy(&self) -> (r: AuditEntry)
        ensures
            r == *self,
    {
        AuditEntry {
            timestamp: self.timestamp,
            actor: self.actor,
            action: self.action.clone(),
            details: self.details.clone(),
        }
    }
}

/// What the entries of a trail say, in order.
pub open spec fn records(v: Seq<AuditEntry>) -> Seq<AuditRecord> {
    v.map_values(|e: AuditEntry| e.record())
}

/// A document attached to an escrow, identified by its hash.
pub struct DocumentHash {
    pub hash: Hash32,
    pub document_type: String,
    pub uploaded_by: AccountId,
    pub uploaded_at: u64,
    pub verified: bool,
}

impl DocumentHash {
    /// A field-by-field copy.
    pub fn copy(&self) -> (r: DocumentHash)
        ensures
            r == *self,
    {
        DocumentHash {
            hash: self.hash,
            document_type: self.document_type.clone(),
            uploaded_by: self.uploaded_by,
            uploaded_at: self.uploaded_at,
            verified: self.verified,
        }
    }
}

/// A large-transfer approval request as stored: everything but its approvals.
#[derive(Clone, Copy, Debug, PartialEq, Eq, Structural)]
pub struct LargeTransferRecord {
    pub request_id: u64,
    pub escrow_id: u64,
    pub approval_type: ApprovalType,
    pub amount: u128,
    pub recipient: AccountId,
    pub tier: TransferApprovalTier,
    pub required_approvals: u8,
    pub initiated_by: AccountId,
    pub created_at_block: u64,
    pub expires_at_block: u64,
    pub status: LargeTransferStatus,
}

/// A large-transfer approval request with the accounts that approved it, in order.
pub struct LargeTransferRequest {
    pub request_id: u64,
    pub escrow_id: u64,
    pub approval_type: ApprovalType,
    pub amount: u128,
    pub recipient: AccountId,
    pub tier: TransferApprovalTier,
    pub required_approvals: u8,
    pub approvals: Vec<AccountId>,
    pub initiated_by: AccountId,
    pub created_at_block: u64,
    pub expires_at_block: u64,
    pub status: LargeTransferStatus,
}

/// Escrow-wide figures for a dashboard.
#[derive(Clone, Copy, Debug, PartialEq, Eq, Structural)]
pub struct EscrowAnalytics {
    pub total_created: u64,
    pub total_released: u64,
    pub total_refunded: u64,
    pub total_disputed: u64,
    pub total_active: u64,
    pub total_volume: u128,
    pub total_released_volume: u128,
    pub total_fees_collected: u128,
    pub average_escrow_amount: u128,
    pub average_dispute_resolution_time: u64,
    pub total_disputes_resolved: u64,
    pub unique_participants: u64,
}

impl TableKey for (u64, ApprovalType, AccountId) {
    fn same(&self, other: &Self) -> (r: bool) {
        self.0 == other.0 && self.1 == other.1 && self.2 == other.2
    }
}

impl TableKey for (u64, ApprovalType) {
    fn same(&self, other: &Self) -> (r: bool) {
        self.0 == other.0 && self.1 == other.1
    }
}

/// The abstract state of the escrow contract.
#[verifier::ext_equal]
pub struct EscrowState {
    pub admin: AccountId,
    pub escrow_count: u64,
    pub escrows: Map<u64, EscrowRecord>,
    pub signers: Map<u64, Seq<AccountId>>,
    pub required_signatures: Map<u64, u8>,
    pub signatures: Map<(u64, ApprovalType, AccountId), bool>,
    pub signature_counts: Map<(u64, ApprovalType), u8>,
    pub conditions: Map<(u64, u64), Condition>,
    pub condition_counters: Map<u64, u64>,
    pub documents: Map<(u64, u64), DocumentHash>,
    pub document_counts: Map<u64, u64>,
    pub disputes: Map<u64, DisputeInfo>,
    pub min_high_value_threshold: u128,
    pub requests: Map<u64, LargeTransferRecord>,
    pub approvals: Map<u64, Seq<AccountId>>,
    pub request_count: u64,
    pub active_request: Map<u64, u64>,
    pub large_transfer_threshold: u128,
    pub very_large_transfer_threshold: u128,
    pub tax_compliance_contract: Option<AccountId>,
    pub fee_rate_bps: u16,
    pub fee_recipient: Option<AccountId>,
    pub analytics: EscrowAnalytics,
    pub seen_participants: Map<AccountId, bool>,
    pub locked: bool,
    /// What the contract holds.
    pub balance: u128,
    /// Transfers made, in order.
    pub payouts: Seq<(AccountId, u128)>,
    /// The audit trail of each escrow, oldest entry first.
    pub audit: Map<u64, Seq<AuditRecord>>,
}

/// The escrow contract.
pub struct AdvancedEscrow {
    admin: AccountId,
    escrow_count: u64,
    escrows: Table<u64, EscrowRecord>,
    signers: Table<u64, Vec<AccountId>>,
    required_signatures: Table<u64, u8>,
    signatures: Table<(u64, ApprovalType, AccountId), bool>,
    signature_counts: Table<(u64, ApprovalType), u8>,
    conditions: Table<(u64, u64), Condition>,
    condition_counters: Table<u64, u64>,
    documents: Table<(u64, u64), DocumentHash>,
    document_counts: Table<u64, u64>,
    disputes: Table<u64, DisputeInfo>,
    min_high_value_threshold: u128,
    requests: Table<u64, LargeTransferRecord>,
    approvals: Table<u64, Vec<AccountId>>,
    request_count: u64,
    active_request: Table<u64, u64>,
    large_transfer_threshold: u128,
    very_large_transfer_threshold: u128,
    tax_compliance_contract: Option<AccountId>,
    fee_rate_bps: u16,
    fee_recipient: Option<AccountId>,
    analytics: EscrowAnalytics,
    seen_participants: Table<AccountId, bool>,
    /// Rejects a transfer entered while another one is running.
    pub reentrancy_guard: ReentrancyGuard,
    balance: u128,
    payouts: Vec<(AccountId, u128)>,
    audit_logs: Table<u64, Vec<AuditEntry>>,
}

/// The views of the account lists a table holds.
pub open spec fn list_views<K>(m: Map<K, Vec<AccountId>>) -> Map<K, Seq<AccountId>> {
    m.map_values(|v: Vec<AccountId>| v@)
}

impl View for AdvancedEscrow {
    type V = EscrowState;

    closed spec fn view(&self) -> EscrowState {
        EscrowState {
            admin: self.admin,
            escrow_count: self.escrow_count,
            escrows: self.escrows@,
            signers: list_views(self.signers@),
            required_signatures: self.required_signatures@,
            signatures: self.signatures@,
            signature_counts: self.signature_counts@,
            conditions: self.conditions@,
            condition_counters: self.condition_counters@,
            documents: self.documents@,
            document_counts: self.document_counts@,
            disputes: self.disputes@,
            min_high_value_threshold: self.min_high_value_threshold,
            requests: self.requests@,
            approvals: list_views(self.approvals@),
            request_count: self.request_count,
            active_request: self.active_request@,
            large_transfer_threshold: self.large_transfer_threshold,
            very_large_transfer_threshold: self.very_large_transfer_threshold,
            tax_compliance_contract: self.tax_compliance_contract,
            fee_rate_bps: self.fee_rate_bps,
            fee_recipient: self.fee_recipient,
            analytics: self.analytics,
            seen_participants: self.seen_participants@,
            locked: self.reentrancy_guard.locked,
            balance: self.balance,
            payouts: self.payouts@,
            audit: self.audit_logs@.map_values(|v: Vec<AuditEntry>| records(v@)),
        }
    }
}

/// The signers of escrow `escrow_id`, none when it has no configuration.
pub open spec fn signers_of(s: EscrowState, escrow_id: u64) -> Seq<AccountId> {
    get_or(s.signers, escrow_id, Seq::empty())
}

/// Whether `caller` may act on escrow `escrow_id` as a participant: one of its signers,
/// or the admin.
pub open spec fn may_act(s: EscrowState, escrow_id: u64, caller: AccountId) -> bool {
    listed(signers_of(s, escrow_id), caller) || caller == s.admin
}

/// Whether escrow `escrow_id` has enough signatures of kind `t`.
pub open spec fn threshold_met(s: EscrowState, escrow_id: u64, t: ApprovalType) -> bool {
    get_or(s.signature_counts, (escrow_id, t), 0u8) >= get_or(s.required_signatures, escrow_id, 0u8)
}

/// The large-transfer threshold in force.
pub open spec fn large_threshold(s: EscrowState) -> u128 {
    if s.large_transfer_threshold > 0 {
        s.large_transfer_threshold
    } else {
        LARGE_TRANSFER_THRESHOLD
    }
}

/// The very-large-transfer threshold in force.
pub open spec fn very_large_threshold(s: EscrowState) -> u128 {
    if s.very_large_transfer_threshold > 0 {
        s.very_large_transfer_threshold
    } else {
        VERY_LARGE_TRANSFER_THRESHOLD
    }
}

/// The approval tier of a transfer of `amount`.
pub open spec fn tier_of(s: EscrowState, amount: u128) -> TransferApprovalTier {
    if amount >= very_large_threshold(s) {
        TransferApprovalTier::VeryLarge
    } else if amount >= large_threshold(s) {
        TransferApprovalTier::Large
    } else {
        TransferApprovalTier::Standard
    }
}

/// The state after the contract pays `amount` to `to` out of its balance.
pub open spec fn paid(s: EscrowState, to: AccountId, amount: u128) -> EscrowState {
    EscrowState {
        balance: (s.balance - amount) as u128,
        payouts: s.payouts.push((to, amount)),
        ..s
    }
}

/// `e` closed with `status` at `timestamp`.
pub open spec fn completed(e: EscrowRecord, status: EscrowStatus, timestamp: u64) -> EscrowRecord {
    EscrowRecord { status, completed_at: Some(timestamp), ..e }
}

/// The audit trail of escrow `id` (empty when it has none).
pub open spec fn audit_of(s: EscrowState, id: u64) -> Seq<AuditRecord> {
    get_or(s.audit, id, Seq::empty())
}

/// The state with `entry` appended to the audit trail of escrow `id`.
pub open spec fn audited(s: EscrowState, id: u64, entry: AuditRecord) -> EscrowState {
    EscrowState { audit: s.audit.insert(id, audit_of(s, id).push(entry)), ..s }
}

/// The entry recording that `actor` did `action` at `timestamp`, with `details`.
pub open spec fn audit_record(timestamp: u64, actor: AccountId, action: Seq<char>, details: Seq<char>) -> AuditRecord {
    AuditRecord { timestamp, actor, action, details }
}

/// The details of a creation entry: the property and the amount.
pub open spec fn created_details(property_id: u64, amount: u128) -> Seq<char> {
    "Property: "@ + decimal(property_id as nat) + ", Amount: "@ + decimal(amount as nat)
}

/// The details of an entry about an amount.
pub open spec fn amount_details(amount: u128) -> Seq<char> {
    "Amount: "@ + decimal(amount as nat)
}

/// Appends the details of an entry about `amount` to a new text.
fn amount_text(amount: u128) -> (r: String)
    ensures
        r@ == amount_details(amount),
{
    let mut s = String::from_str("Amount: ");
    append_decimal(&mut s, amount);
    s
}

/// The state with escrow `id` replaced by `e`.
pub open spec fn with_escrow(s: EscrowState, id: u64, e: EscrowRecord) -> EscrowState {
    EscrowState { escrows: s.escrows.insert(id, e), ..s }
}

impl AdvancedEscrow {
    /// The tables' invariants.
    pub closed spec fn wf(&self) -> bool {
        &&& self.escrows.wf()
        &&& self.signers.wf()
        &&& self.required_signatures.wf()
        &&& self.signatures.wf()
        &&& self.signature_counts.wf()
        &&& self.conditions.wf()
        &&& self.condition_counters.wf()
        &&& self.documents.wf()
        &&& self.document_counts.wf()
        &&& self.disputes.wf()
        &&& self.requests.wf()
        &&& self.approvals.wf()
        &&& self.active_request.wf()
        &&& self.seen_participants.wf()
        &&& self.audit_logs.wf()
    }

    /// An escrow contract administered by `caller`, holding nothing.
    pub fn new(caller: AccountId, min_high_value_threshold: u128, tax_compliance_contract: Option<AccountId>) -> (r:
        AdvancedEscrow)
        ensures
            r.wf(),
            r@ == (EscrowState {
                admin: caller,
                escrow_count: 0,
                escrows: Map::empty(),
                signers: Map::empty(),
                required_signatures: Map::empty(),
                signatures: Map::empty(),
                signature_counts: Map::empty(),
                conditions: Map::empty(),
                condition_counters: Map::empty(),
                documents: Map::empty(),
                document_counts: Map::empty(),
                disputes: Map::empty(),
                min_high_value_threshold,
                requests: Map::empty(),
                approvals: Map::empty(),
                request_count: 0,
                active_request: Map::empty(),
                large_transfer_threshold: 0,
                very_large_transfer_threshold: 0,
                tax_compliance_contract,
                fee_rate_bps: 0,
                fee_recipient: None,
                analytics: EscrowAnalytics {
                    total_created: 0,
                    total_released: 0,
                    total_refunded: 0,
                    total_disputed: 0,
                    total_active: 0,
                    total_volume: 0,
                    total_released_volume: 0,
                    total_fees_collected: 0,
                    average_escrow_amount: 0,
                    average_dispute_resolution_time: 0,
                    total_disputes_resolved: 0,
                    unique_participants: 0,
                },
                seen_participants: Map::empty(),
                locked: false,
                balance: 0,
                payouts: Seq::empty(),
                audit: Map::empty(),
            }),
    {
        let r = AdvancedEscrow {
            admin: caller,
            escrow_count: 0,
            escrows: Table::new(),
            signers: Table::new(),
            required_signatures: Table::new(),
            signatures: Table::new(),
            signature_counts: Table::new(),
            conditions: Table::new(),
            condition_counters: Table::new(),
            documents: Table::new(),
            document_counts: Table::new(),
            disputes: Table::new(),
            min_high_value_threshold,
            requests: Table::new(),
            approvals: Table::new(),
            request_count: 0,
            active_request: Table::new(),
            large_transfer_threshold: 0,
            very_large_transfer_threshold: 0,
            tax_compliance_contract,
            fee_rate_bps: 0,
            fee_recipient: None,
            analytics: EscrowAnalytics {
                total_created: 0,
                total_released: 0,
                total_refunded: 0,
                total_disputed: 0,
                total_active: 0,
                total_volume: 0,
                total_released_volume: 0,
                total_fees_collected: 0,
                average_escrow_amount: 0,
                average_dispute_resolution_time: 0,
                total_disputes_resolved: 0,
                unique_participants: 0,
            },
            seen_participants: Table::new(),
            reentrancy_guard: ReentrancyGuard::new(),
            balance: 0,
            payouts: Vec::new(),
            audit_logs: Table::new(),
        };
        assert(r@.signers =~= Map::<u64, Seq<AccountId>>::empty());
        assert(r@.approvals =~= Map::<u64, Seq<AccountId>>::empty());
        assert(r@.payouts =~= Seq::<(AccountId, u128)>::empty());
        assert(r@.audit =~= Map::<u64, Seq<AuditRecord>>::empty());
        r
    }

    /// Pays `amount` to `to` if the contract holds that much.
    fn transfer(&mut self, to: AccountId, amount: u128) -> (ok: bool)
        requires
            old(self).wf(),
        ensures
            final(self).wf(),
            ok == (amount <= old(self)@.balance),
            ok ==> final(self)@ == paid(old(self)@, to, amount),
            !ok ==> final(self)@ == old(self)@,
    {
        if amount > self.balance {
            return false;
        }
        self.balance = self.balance - amount;
        self.payouts.push((to, amount));
        assert(self@ =~= paid(old(self)@, to, amount));
        true
    }

    fn put_escrow(&mut self, id: u64, e: EscrowRecord)
        requires
            old(self).wf(),
        ensures
            final(self).wf(),
            final(self)@ == with_escrow(old(self)@, id, e),
    {
        self.escrows.insert(id, e);
        assert(self@ =~= with_escrow(old(self)@, id, e));
    }

    /// Appends an entry to the audit trail of escrow `id`.
    fn log_audit(&mut self, id: u64, timestamp: u64, actor: AccountId, action: String, details: String)
        requires
            old(self).wf(),
        ensures
            final(self).wf(),
            final(self)@ == audited(old(self)@, id, audit_record(timestamp, actor, action@, details@)),
    {
        let entry = AuditEntry { timestamp, actor, action, details };
        let ghost rec = entry.record();
        let mut trail = match self.audit_logs.remove(&id) {
            Some(v) => v,
            None => Vec::new(),
        };
        let ghost before = trail@;
        assert(records(before) == audit_of(old(self)@, id));
        trail.push(entry);
        assert(records(trail@) =~= records(before).push(rec));
        let ghost after = trail@;
        let ghost logs0 = self.audit_logs@;
        self.audit_logs.insert(id, trail);
        assert(self.audit_logs@.map_values(|v: Vec<AuditEntry>| records(v@)) =~= logs0.map_values(
            |v: Vec<AuditEntry>| records(v@),
        ).insert(id, records(after)));
        assert(self@ =~= audited(old(self)@, id, rec));
    }

    /// The audit trail of escrow `escrow_id`, oldest entry first.
    pub fn get_audit_trail(&self, escrow_id: u64) -> (r: Vec<AuditEntry>)
        requires
            self.wf(),
        ensures
            records(r@) == audit_of(self@, escrow_id),
    {
        let mut out: Vec<AuditEntry> = Vec::new();
        match self.audit_logs.get(&escrow_id) {
            Some(trail) => {
                let mut i: usize = 0;
                while i < trail.len()
                    invariant
                        i <= trail@.len(),
                        out@ == trail@.subrange(0, i as int),
                    decreases trail@.len() - i,
                {
                    out.push(trail[i].copy());
                    i = i + 1;
                }
                assert(out@ =~= trail@);
            },
            None => {
                assert(records(out@) =~= Seq::<AuditRecord>::empty());
            },
        }
        out
    }

    fn signers_list(&self, escrow_id: u64) -> (r: Vec<AccountId>)
        requires
            self.wf(),
        ensures
            r@ == signers_of(self@, escrow_id),
    {
        match self.signers.get(&escrow_id) {
            Some(v) => {
                let c = v.clone();
                assert(c@ =~= v@);
                c
            },
            None => {
                let e: Vec<AccountId> = Vec::new();
                assert(e@ =~= Seq::<AccountId>::empty());
                e
            },
        }
    }

    fn may_act_on(&self, escrow_id: u64, caller: AccountId) -> (r: bool)
        requires
            self.wf(),
        ensures
            r == may_act(self@, escrow_id, caller),
    {
        if caller == self.admin {
            return true;
        }
        let signers = self.signers_list(escrow_id);
        is_listed(&signers, caller)
    }

    /// Opens an escrow of `amount` for a property between `buyer` and `seller`, signed
    /// for by `participants`, `required_signatures` of whom must approve a release or a
    /// refund.
    pub fn create_escrow_advanced(
        &mut self,
        caller: AccountId,
        timestamp: u64,
        property_id: u64,
        amount: u128,
        buyer: AccountId,
        seller: AccountId,
        participants: Vec<AccountId>,
        required_signatures: u8,
        release_time_lock: Option<u64>,
    ) -> (r: Result<u64, EscrowError>)
        requires
            old(self).wf(),
            old(self)@.escrow_count < u64::MAX,
            old(self)@.analytics.total_created < u64::MAX,
            old(self)@.analytics.total_active < u64::MAX,
            old(self)@.analytics.unique_participants + 2 <= u64::MAX,
        ensures
            final(self).wf(),
            required_signatures == 0 || participants@.len() == 0 || required_signatures
                > participants@.len() ==> r == Err::<u64, EscrowError>(
                EscrowError::InvalidConfiguration,
            ) && final(self)@ == old(self)@,
            !(required_signatures == 0 || participants@.len() == 0 || required_signatures
                > participants@.len()) ==> {
                let s = old(self)@;
                let id = (s.escrow_count + 1) as u64;
                let total_created = (s.analytics.total_created + 1) as u64;
                let total_volume = crate::math::sadd(s.analytics.total_volume, amount);
                let buyer_new = !get_or(s.seen_participants, buyer, false);
                let seen1 = s.seen_participants.insert(buyer, true);
                let seller_new = !get_or(seen1, seller, false);
                &&& r == Ok::<u64, EscrowError>(id)
                &&& final(self)@ == EscrowState {
                    escrow_count: id,
                    escrows: s.escrows.insert(
                        id,
                        EscrowRecord {
                            id,
                            property_id,
                            buyer,
                            seller,
                            amount,
                            deposited_amount: 0,
                            status: EscrowStatus::Created,
                            created_at: timestamp,
                            completed_at: None,
                            release_time_lock,
                            total_released: 0,
                        },
                    ),
                    signers: s.signers.insert(id, participants@),
                    required_signatures: s.required_signatures.insert(id, required_signatures),
                    condition_counters: s.condition_counters.insert(id, 0),
                    document_counts: s.document_counts.insert(id, 0),
                    analytics: EscrowAnalytics {
                        total_created,
                        total_volume,
                        total_active: (s.analytics.total_active + 1) as u64,
                        average_escrow_amount: total_volume / (total_created as u128),
                        unique_participants: (s.analytics.unique_participants + (if buyer_new {
                            1int
                        } else {
                            0int
                        }) + (if seller_new {
                            1int
                        } else {
                            0int
                        })) as u64,
                        ..s.analytics
                    },
                    seen_participants: seen1.insert(seller, true),
                    audit: s.audit.insert(
                        id,
                        seq![audit_record(timestamp, caller, "EscrowCreated"@, created_details(property_id, amount))],
                    ),
                    ..s
                }
            },
    {
        if required_signatures == 0 || participants.len() == 0 {
            return Err(EscrowError::InvalidConfiguration);
        }
        if required_signatures as usize > participants.len() {
            return Err(EscrowError::InvalidConfiguration);
        }
        let ghost s = self@;
        self.escrow_count = self.escrow_count + 1;
        let escrow_id = self.escrow_count;
        self.escrows.insert(
            escrow_id,
            EscrowRecord {
                id: escrow_id,
                property_id,
                buyer,
                seller,
                amount,
                deposited_amount: 0,
                status: EscrowStatus::Created,
                created_at: timestamp,
                completed_at: None,
                release_time_lock,
                total_released: 0,
            },
        );
        let ghost pv = participants@;
        let ghost old_signers = self.signers@;
        self.signers.insert(escrow_id, participants);
        assert(list_views(self.signers@) =~= list_views(old_signers).insert(escrow_id, pv));
        self.required_signatures.insert(escrow_id, required_signatures);
        self.condition_counters.insert(escrow_id, 0);
        self.document_counts.insert(escrow_id, 0);
        self.analytics.total_created = self.analytics.total_created + 1;
        self.analytics.total_volume = self.analytics.total_volume.saturating_add(amount);
        self.analytics.total_active = self.analytics.total_active + 1;
        self.analytics.average_escrow_amount = self.analytics.total_volume
            / (self.analytics.total_created as u128);
        if !lookup_or(&self.seen_participants, &buyer, false) {
            self.seen_participants.insert(buyer, true);
            self.analytics.unique_participants = self.analytics.unique_participants + 1;
        }
        assert(self@.seen_participants =~= s.seen_participants.insert(buyer, true));
        if !lookup_or(&self.seen_participants, &seller, false) {
            self.seen_participants.insert(seller, true);
            self.analytics.unique_participants = self.analytics.unique_participants + 1;
        }
        assert(self@.seen_participants =~= s.seen_participants.insert(buyer, true).insert(
            seller,
            true,
        ));
        let ghost logs0 = self.audit_logs@;
        let fresh: Vec<AuditEntry> = Vec::new();
        assert(records(fresh@) =~= Seq::<AuditRecord>::empty());
        self.audit_logs.insert(escrow_id, fresh);
        assert(self.audit_logs@.map_values(|v: Vec<AuditEntry>| records(v@)) =~= logs0.map_values(
            |v: Vec<AuditEntry>| records(v@),
        ).insert(escrow_id, Seq::empty()));
        let mut details = String::from_str("Property: ");
        append_decimal(&mut details, property_id as u128);
        details.append(", Amount: ");
        append_decimal(&mut details, amount);
        self.log_audit(escrow_id, timestamp, caller, String::from_str("EscrowCreated"), details);
        Ok(escrow_id)
    }

    /// The buyer's (or anyone's) payment of `payment` into escrow `escrow_id`; the
    /// escrow becomes active once fully funded.
    pub fn deposit_funds(&mut self, caller: AccountId, timestamp: u64, payment: u128, escrow_id: u64) -> (r: Result<
        (),
        EscrowError,
    >)
        requires
            old(self).wf(),
            old(self)@.escrows.contains_key(escrow_id) ==> old(self)@.escrows[escrow_id].deposited_amount
                + payment <= u128::MAX,
            old(self)@.balance + payment <= u128::MAX,
        ensures
            final(self).wf(),
            !old(self)@.escrows.contains_key(escrow_id) ==> r == Err::<(), EscrowError>(
                EscrowError::EscrowNotFound,
            ) && final(self)@ == old(self)@,
            old(self)@.escrows.contains_key(escrow_id) ==> {
                let e = old(self)@.escrows[escrow_id];
                if e.status != EscrowStatus::Created && e.status != EscrowStatus::Funded {
                    r == Err::<(), EscrowError>(EscrowError::InvalidStatus) && final(self)@ == old(self)@
                } else {
                    let deposited = (e.deposited_amount + payment) as u128;
                    r == Ok::<(), EscrowError>(()) && final(self)@ == audited(
                        EscrowState {
                            balance: (old(self)@.balance + payment) as u128,
                            ..with_escrow(
                                old(self)@,
                                escrow_id,
                                EscrowRecord {
                                    deposited_amount: deposited,
                                    status: if deposited >= e.amount {
                                        EscrowStatus::Active
                                    } else {
                                        EscrowStatus::Funded
                                    },
                                    ..e
                                },
                            )
                        },
                        escrow_id,
                        audit_record(timestamp, caller, "FundsDeposited"@, amount_details(payment)),
                    )
                }
            },
    {
        let mut escrow = match self.escrows.get(&escrow_id) {
            Some(e) => *e,
            None => return Err(EscrowError::EscrowNotFound),
        };
        if escrow.status != EscrowStatus::Created && escrow.status != EscrowStatus::Funded {
            return Err(EscrowError::InvalidStatus);
        }
        escrow.deposited_amount = escrow.deposited_amount + payment;
        if escrow.deposited_amount >= escrow.amount {
            escrow.status = EscrowStatus::Active;
        } else {
            escrow.status = EscrowStatus::Funded;
        }
        self.put_escrow(escrow_id, escrow);
        self.balance = self.balance + payment;
        self.log_audit(escrow_id, timestamp, caller, String::from_str("FundsDeposited"), amount_text(payment));
        Ok(())
    }

    /// Escrow `escrow_id` with its participants, if there is one.
    pub fn get_escrow(&self, escrow_id: u64) -> (r: Option<EscrowData>)
        requires
            self.wf(),
        ensures
            !self@.escrows.contains_key(escrow_id) ==> r is None,
            self@.escrows.contains_key(escrow_id) ==> r is Some && {
                let d = r->0;
                let e = self@.escrows[escrow_id];
                &&& d.id == e.id && d.property_id == e.property_id && d.buyer == e.buyer
                &&& d.seller == e.seller && d.amount == e.amount
                &&& d.deposited_amount == e.deposited_amount && d.status == e.status
                &&& d.created_at == e.created_at && d.completed_at == e.completed_at
                &&& d.release_time_lock == e.release_time_lock
                &&& d.total_released == e.total_released
                &&& d.participants@ == signers_of(self@, escrow_id)
            },
    {
        let e = match self.escrows.get(&escrow_id) {
            Some(e) => *e,
            None => return None,
        };
        Some(
            EscrowData {
                id: e.id,
                property_id: e.property_id,
                buyer: e.buyer,
                seller: e.seller,
                amount: e.amount,
                deposited_amount: e.deposited_amount,
                status: e.status,
                created_at: e.created_at,
                completed_at: e.completed_at,
                release_time_lock: e.release_time_lock,
                participants: self.signers_list(escrow_id),
                total_released: e.total_released,
            },
        )
    }

    /// The signers of escrow `escrow_id` and the signatures an approval needs.
    pub fn get_multi_sig_config(&self, escrow_id: u64) -> (r: Option<MultiSigConfig>)
        requires
            self.wf(),
        ensures
            !self@.required_signatures.contains_key(escrow_id) ==> r is None,
            self@.required_signatures.contains_key(escrow_id) ==> r is Some
                && r->0.required_signatures == self@.required_signatures[escrow_id]
                && r->0.signers@ == signers_of(self@, escrow_id),
    {
        let required = match self.required_signatures.get(&escrow_id) {
            Some(n) => *n,
            None => return None,
        };
        Some(MultiSigConfig { required_signatures: required, signers: self.signers_list(escrow_id) })
    }

    /// The admin.
    pub fn get_admin(&self) -> (r: AccountId)
        ensures
            r == self@.admin,
    {
        self.admin
    }

    /// The admin hands the role to `new_admin`.
    pub fn set_admin(&mut self, caller: AccountId, new_admin: AccountId) -> (r: Result<(), EscrowError>)
        requires
            old(self).wf(),
        ensures
            final(self).wf(),
            caller != old(self)@.admin ==> r == Err::<(), EscrowError>(EscrowError::Unauthorized)
                && final(self)@ == old(self)@,
            caller == old(self)@.admin ==> r == Ok::<(), EscrowError>(()) && final(self)@ == (
            EscrowState { admin: new_admin, ..old(self)@ }),
    {
        if caller != self.admin {
            return Err(EscrowError::Unauthorized);
        }
        self.admin = new_admin;
        assert(self@ =~= EscrowState { admin: new_admin, ..old(self)@ });
        Ok(())
    }

    /// The amount above which escrows are considered high-value.
    pub fn get_high_value_threshold(&self) -> (r: u128)
        ensures
            r == self@.min_high_value_threshold,
    {
        self.min_high_value_threshold
    }

    /// The admin sets, or clears, the tax-compliance contract consulted on release.
    pub fn set_tax_compliance_contract(&mut self, caller: AccountId, contract: Option<AccountId>) -> (r:
        Result<(), EscrowError>)
        requires
            old(self).wf(),
        ensures
            final(self).wf(),
            caller != old(self)@.admin ==> r == Err::<(), EscrowError>(EscrowError::Unauthorized)
                && final(self)@ == old(self)@,
            caller == old(self)@.admin ==> r == Ok::<(), EscrowError>(()) && final(self)@ == (
            EscrowState { tax_compliance_contract: contract, ..old(self)@ }),
    {
        if caller != self.admin {
            return Err(EscrowError::Unauthorized);
        }
        self.tax_compliance_contract = contract;
        assert(self@ =~= EscrowState { tax_compliance_contract: contract, ..old(self)@ });
        Ok(())
    }

    /// The admin sets the release fee, in basis points (at most 10 000).
    pub fn set_fee_rate(&mut self, caller: AccountId, fee_rate_bps: u16) -> (r: Result<(), EscrowError>)
        requires
            old(self).wf(),
        ensures
            final(self).wf(),
            caller != old(self)@.admin ==> r == Err::<(), EscrowError>(EscrowError::Unauthorized)
                && final(self)@ == old(self)@,
            caller == old(self)@.admin && fee_rate_bps > 10_000 ==> r == Err::<(), EscrowError>(
                EscrowError::InvalidFeeAmount,
            ) && final(self)@ == old(self)@,
            caller == old(self)@.admin && fee_rate_bps <= 10_000 ==> r == Ok::<(), EscrowError>(())
                && final(self)@ == (EscrowState { fee_rate_bps, ..old(self)@ }),
    {
        if caller != self.admin {
            return Err(EscrowError::Unauthorized);
        }
        if fee_rate_bps > 10_000 {
            return Err(EscrowError::InvalidFeeAmount);
        }
        self.fee_rate_bps = fee_rate_bps;
        assert(self@ =~= EscrowState { fee_rate_bps, ..old(self)@ });
        Ok(())
    }

    /// The admin sets, or clears, the account release fees go to.
    pub fn set_fee_recipient(&mut self, caller: AccountId, recipient: Option<AccountId>) -> (r: Result<
        (),
        EscrowError,
    >)
        requires
            old(self).wf(),
        ensures
            final(self).wf(),
            caller != old(self)@.admin ==> r == Err::<(), EscrowError>(EscrowError::Unauthorized)
                && final(self)@ == old(self)@,
            caller == old(self)@.admin ==> r == Ok::<(), EscrowError>(()) && final(self)@ == (
            EscrowState { fee_recipient: recipient, ..old(self)@ }),
    {
        if caller != self.admin {
            return Err(EscrowError::Unauthorized);
        }
        self.fee_recipient = recipient;
        assert(self@ =~= EscrowState { fee_recipient: recipient, ..old(self)@ });
        Ok(())
    }

    /// The admin overrides the large and very-large transfer thresholds (0 restores the
    /// default); when both are set the very-large one must be the higher.
    pub fn set_large_transfer_thresholds(&mut self, caller: AccountId, large: u128, very_large: u128) -> (r:
        Result<(), EscrowError>)
        requires
            old(self).wf(),
        ensures
            final(self).wf(),
            caller != old(self)@.admin ==> r == Err::<(), EscrowError>(EscrowError::Unauthorized)
                && final(self)@ == old(self)@,
            caller == old(self)@.admin && large > 0 && very_large > 0 && very_large <= large ==> r
                == Err::<(), EscrowError>(EscrowError::InvalidConfiguration) && final(self)@ == old(self)@,
            caller == old(self)@.admin && !(large > 0 && very_large > 0 && very_large <= large) ==> r
                == Ok::<(), EscrowError>(()) && final(self)@ == (EscrowState {
                large_transfer_threshold: large,
                very_large_transfer_threshold: very_large,
                ..old(self)@
            }),
    {
        if caller != self.admin {
            return Err(EscrowError::Unauthorized);
        }
        if large > 0 && very_large > 0 && very_large <= large {
            return Err(EscrowError::InvalidConfiguration);
        }
        self.large_transfer_threshold = large;
        self.very_large_transfer_threshold = very_large;
        assert(self@ =~= EscrowState {
            large_transfer_threshold: large,
            very_large_transfer_threshold: very_large,
            ..old(self)@
        });
        Ok(())
    }

    /// The approval tier of a transfer of `amount` under the thresholds in force.
    pub fn classify_transfer_tier(&self, amount: u128) -> (r: TransferApprovalTier)
        ensures
            r == tier_of(self@, amount),
    {
        let large = if self.large_transfer_threshold > 0 {
            self.large_transfer_threshold
        } else {
            LARGE_TRANSFER_THRESHOLD
        };
        let very_large = if self.very_large_transfer_threshold > 0 {
            self.very_large_transfer_threshold
        } else {
            VERY_LARGE_TRANSFER_THRESHOLD
        };
        if amount >= very_large {
            TransferApprovalTier::VeryLarge
        } else if amount >= large {
            TransferApprovalTier::Large
        } else {
            TransferApprovalTier::Standard
        }
    }

    /// Escrow-wide figures.
    pub fn get_escrow_analytics(&self) -> (r: EscrowAnalytics)
        ensures
            r == self@.analytics,
    {
        self.analytics
    }

    /// What the contract holds.
    pub fn get_balance(&self) -> (r: u128)
        ensures
            r == self@.balance,
    {
        self.balance
    }

    /// Transfers made so far, in order.
    pub fn pending_payouts(&self) -> (r: &Vec<(AccountId, u128)>)
        ensures
            r@ == self@.payouts,
    {
        &self.payouts
    }
}

} // verus!
