//! Paying out an escrow: releases to the seller, refunds to the buyer, the approval
//! round that transfers of large amounts wait for, and the admin's emergency override.
use vstd::prelude::*;
use vstd::string::StringExecFns;

use crate::common::{get_or, is_listed, listed, lookup_or, sadd64, AccountId};
use crate::escrow::approvals::all_conditions_met;
use crate::escrow::{
    amount_details, amount_text, audit_record, audited, completed, list_views, may_act, paid,
    threshold_met, tier_of, with_escrow,
    AdvancedEscrow, ApprovalType, EscrowError, EscrowRecord, EscrowState, EscrowStatus,
    LargeTransferRecord, LargeTransferRequest, LargeTransferStatus, TransferApprovalTier,
    LARGE_TRANSFER_EXPIRY_BLOCKS,
};
use crate::math::{smul, ssub};

verus! {

/// The request opened for a transfer of `amount` to `recipient` out of escrow
/// `escrow_id`, as the next request.
pub open spec fn new_request(
    s: EscrowState,
    escrow_id: u64,
    approval_type: ApprovalType,
    amount: u128,
    recipient: AccountId,
    tier: TransferApprovalTier,
    caller: AccountId,
    block: u64,
) -> LargeTransferRecord {
    LargeTransferRecord {
        request_id: (s.request_count + 1) as u64,
        escrow_id,
        approval_type,
        amount,
        recipient,
        tier,
        required_approvals: if tier == TransferApprovalTier::VeryLarge {
            3
        } else {
            2
        },
        initiated_by: caller,
        created_at_block: block,
        expires_at_block: sadd64(block, LARGE_TRANSFER_EXPIRY_BLOCKS),
        status: LargeTransferStatus::Pending,
    }
}

/// The state after request `q` is opened and becomes its escrow's active request.
pub open spec fn requested(s: EscrowState, q: LargeTransferRecord) -> EscrowState {
    EscrowState {
        request_count: q.request_id,
        requests: s.requests.insert(q.request_id, q),
        approvals: s.approvals.insert(q.request_id, Seq::empty()),
        active_request: s.active_request.insert(q.escrow_id, q.request_id),
        ..s
    }
}

/// The state after a transfer from escrow `escrow_id` hits the large-transfer gate: a
/// request is opened unless one is already active.
pub open spec fn gated(
    s: EscrowState,
    escrow_id: u64,
    approval_type: ApprovalType,
    e: EscrowRecord,
    recipient: AccountId,
    caller: AccountId,
    block: u64,
) -> EscrowState {
    if get_or(s.active_request, escrow_id, 0u64) == 0 {
        requested(
            s,
            new_request(
                s,
                escrow_id,
                approval_type,
                e.deposited_amount,
                recipient,
                tier_of(s, e.deposited_amount),
                caller,
                block,
            ),
        )
    } else {
        s
    }
}

/// The outcome of releasing escrow `escrow_id` to its seller, given the tax the
/// tax-compliance contract withholds (its amount and collector), if one is configured.
pub open spec fn release_outcome(
    s: EscrowState,
    caller: AccountId,
    block: u64,
    timestamp: u64,
    escrow_id: u64,
    withheld: Option<(u128, AccountId)>,
) -> (EscrowState, Result<(), EscrowError>) {
    if s.locked {
        (s, Err(EscrowError::ReentrantCall))
    } else if !s.escrows.contains_key(escrow_id) {
        (s, Err(EscrowError::EscrowNotFound))
    } else {
        let e = s.escrows[escrow_id];
        if e.status != EscrowStatus::Active {
            (s, Err(EscrowError::InvalidStatus))
        } else if s.disputes.contains_key(escrow_id) && !s.disputes[escrow_id].resolved {
            (s, Err(EscrowError::DisputeActive))
        } else if e.release_time_lock is Some && timestamp < e.release_time_lock->0 {
            (s, Err(EscrowError::TimeLockActive))
        } else if !all_conditions_met(s, escrow_id) {
            (s, Err(EscrowError::ConditionsNotMet))
        } else if !threshold_met(s, escrow_id, ApprovalType::Release) {
            (s, Err(EscrowError::SignatureThresholdNotMet))
        } else if tier_of(s, e.deposited_amount) != TransferApprovalTier::Standard {
            (
                gated(s, escrow_id, ApprovalType::Release, e, e.seller, caller, block),
                Err(EscrowError::LargeTransferApprovalRequired),
            )
        } else {
            let (tax, collector) = match withheld {
                Some(w) => w,
                None => (0u128, s.admin),
            };
            let taxed = s.tax_compliance_contract is Some && tax > 0;
            if taxed && tax > s.balance {
                (s, Err(EscrowError::InsufficientFunds))
            } else {
                let s1 = if taxed {
                    paid(s, collector, tax)
                } else {
                    s
                };
                let amount = if taxed {
                    ssub(e.deposited_amount, tax)
                } else {
                    e.deposited_amount
                };
                let fee = if s.fee_rate_bps > 0 && s.fee_recipient is Some {
                    smul(amount, s.fee_rate_bps as u128) / 10_000
                } else {
                    0
                };
                if fee > 0 && fee > s1.balance {
                    (s1, Err(EscrowError::InvalidFeeAmount))
                } else {
                    let s2 = if fee > 0 {
                        paid(s1, s.fee_recipient->0, fee)
                    } else {
                        s1
                    };
                    let net = ssub(amount, fee);
                    if net > s2.balance {
                        (s2, Err(EscrowError::InsufficientFunds))
                    } else {
                        (
                            audited(
                                with_escrow(
                                    paid(s2, e.seller, net),
                                    escrow_id,
                                    completed(e, EscrowStatus::Released, timestamp),
                                ),
                                escrow_id,
                                audit_record(timestamp, caller, "FundsReleased"@, amount_details(net)),
                            ),
                            Ok(()),
                        )
                    }
                }
            }
        }
    }
}

/// The outcome of refunding escrow `escrow_id` to its buyer.
pub open spec fn refund_outcome(
    s: EscrowState,
    caller: AccountId,
    block: u64,
    timestamp: u64,
    escrow_id: u64,
) -> (EscrowState, Result<(), EscrowError>) {
    if s.locked {
        (s, Err(EscrowError::ReentrantCall))
    } else if !s.escrows.contains_key(escrow_id) {
        (s, Err(EscrowError::EscrowNotFound))
    } else {
        let e = s.escrows[escrow_id];
        if e.status != EscrowStatus::Active {
            (s, Err(EscrowError::InvalidStatus))
        } else if !threshold_met(s, escrow_id, ApprovalType::Refund) {
            (s, Err(EscrowError::SignatureThresholdNotMet))
        } else if tier_of(s, e.deposited_amount) != TransferApprovalTier::Standard {
            (
                gated(s, escrow_id, ApprovalType::Refund, e, e.buyer, caller, block),
                Err(EscrowError::LargeTransferApprovalRequired),
            )
        } else if e.deposited_amount > s.balance {
            (s, Err(EscrowError::InsufficientFunds))
        } else {
            (
                audited(
                    with_escrow(
                        paid(s, e.buyer, e.deposited_amount),
                        escrow_id,
                        completed(e, EscrowStatus::Refunded, timestamp),
                    ),
                    escrow_id,
                    audit_record(timestamp, caller, "FundsRefunded"@, amount_details(e.deposited_amount)),
                ),
                Ok(()),
            )
        }
    }
}

/// The state with request `request_id` set to `status` and its escrow left without an
/// active request.
pub open spec fn closed_request(s: EscrowState, request_id: u64, status: LargeTransferStatus) -> EscrowState {
    let q = s.requests[request_id];
    EscrowState {
        requests: s.requests.insert(request_id, LargeTransferRecord { status, ..q }),
        active_request: s.active_request.insert(q.escrow_id, 0),
        ..s
    }
}

/// The outcome of carrying out an approved large-transfer request.
pub open spec fn execute_outcome(s: EscrowState, block: u64, timestamp: u64, request_id: u64) -> (
    EscrowState,
    Result<(), EscrowError>,
) {
    if s.locked {
        (s, Err(EscrowError::ReentrantCall))
    } else if !s.requests.contains_key(request_id) {
        (s, Err(EscrowError::ApprovalRequestNotFound))
    } else {
        let q = s.requests[request_id];
        if q.status != LargeTransferStatus::Approved {
            (s, Err(EscrowError::ApprovalNotComplete))
        } else if block > q.expires_at_block {
            (
                EscrowState {
                    requests: s.requests.insert(
                        request_id,
                        LargeTransferRecord { status: LargeTransferStatus::Expired, ..q },
                    ),
                    ..s
                },
                Err(EscrowError::ApprovalRequestExpired),
            )
        } else if !s.escrows.contains_key(q.escrow_id) {
            (s, Err(EscrowError::EscrowNotFound))
        } else {
            let e = s.escrows[q.escrow_id];
            if e.status != EscrowStatus::Active {
                (s, Err(EscrowError::InvalidStatus))
            } else if q.approval_type == ApprovalType::EmergencyOverride {
                (s, Err(EscrowError::InvalidApprovalType))
            } else if q.amount > s.balance {
                (s, Err(EscrowError::InsufficientFunds))
            } else {
                let (to, status) = if q.approval_type == ApprovalType::Release {
                    (e.seller, EscrowStatus::Released)
                } else {
                    (e.buyer, EscrowStatus::Refunded)
                };
                (
                    closed_request(
                        with_escrow(paid(s, to, q.amount), q.escrow_id, completed(e, status, timestamp)),
                        request_id,
                        LargeTransferStatus::Executed,
                    ),
                    Ok(()),
                )
            }
        }
    }
}

/// Whether a request with this status still collects approvals.
pub open spec fn is_open(status: LargeTransferStatus) -> bool {
    status == LargeTransferStatus::Pending || status == LargeTransferStatus::Approved
}

impl AdvancedEscrow {
    fn approvals_list(&self, request_id: u64) -> (r: Vec<AccountId>)
        requires
            self.wf(),
        ensures
            r@ == get_or(self@.approvals, request_id, Seq::empty()),
    {
        match self.approvals.get(&request_id) {
            Some(v) => {
                let c = v.clone();
                assert(c@ =~= v@);
                c
            },
            None => {
                let e: Vec<AccountId> = Vec::new();
                assert(e@ =~= Seq::<AccountId>::empty());
                e
            },
        }
    }

    fn put_approvals(&mut self, request_id: u64, v: Vec<AccountId>)
        requires
            old(self).wf(),
        ensures
            final(self).wf(),
            final(self)@ == (EscrowState { approvals: old(self)@.approvals.insert(request_id, v@), ..old(self)@ }),
    {
        let ghost vv = v@;
        let ghost t0 = self.approvals@;
        self.approvals.insert(request_id, v);
        assert(list_views(self.approvals@) =~= list_views(t0).insert(request_id, vv));
        assert(self@ =~= EscrowState { approvals: old(self)@.approvals.insert(request_id, vv), ..old(self)@ });
    }

    fn open_large_transfer_request(
        &mut self,
        escrow_id: u64,
        approval_type: ApprovalType,
        amount: u128,
        recipient: AccountId,
        tier: TransferApprovalTier,
        caller: AccountId,
        block: u32,
    ) -> (id: u64)
        requires
            old(self).wf(),
            old(self)@.request_count < u64::MAX,
        ensures
            final(self).wf(),
            final(self)@ == requested(
                old(self)@,
                new_request(old(self)@, escrow_id, approval_type, amount, recipient, tier, caller, block as u64),
            ),
            id == old(self)@.request_count + 1,
    {
        self.request_count = self.request_count + 1;
        let request_id = self.request_count;
        let required: u8 = match tier {
            TransferApprovalTier::VeryLarge => 3,
            _ => 2,
        };
        let created = block as u64;
        let q = LargeTransferRecord {
            request_id,
            escrow_id,
            approval_type,
            amount,
            recipient,
            tier,
            required_approvals: required,
            initiated_by: caller,
            created_at_block: created,
            expires_at_block: created.saturating_add(LARGE_TRANSFER_EXPIRY_BLOCKS),
            status: LargeTransferStatus::Pending,
        };
        self.requests.insert(request_id, q);
        self.put_approvals(request_id, Vec::new());
        self.active_request.insert(escrow_id, request_id);
        assert(self@ =~= requested(
            old(self)@,
            new_request(old(self)@, escrow_id, approval_type, amount, recipient, tier, caller, block as u64),
        ));
        request_id
    }

    /// What a release of escrow `escrow_id` asks the tax-compliance contract to withhold
    /// tax on: the escrow's property and its deposited amount. None when no tax contract
    /// is set or there is no such escrow.
    pub fn tax_withholding_query(&self, escrow_id: u64) -> (r: Option<(u64, u128)>)
        requires
            self.wf(),
        ensures
            r == if self@.tax_compliance_contract is Some && self@.escrows.contains_key(escrow_id) {
                Some((self@.escrows[escrow_id].property_id, self@.escrows[escrow_id].deposited_amount))
            } else {
                None::<(u64, u128)>
            },
    {
        if self.tax_compliance_contract.is_none() {
            return None;
        }
        match self.escrows.get(&escrow_id) {
            Some(e) => Some((e.property_id, e.deposited_amount)),
            None => None,
        }
    }

    /// Releases escrow `escrow_id` to its seller once it is active, undisputed, past its
    /// time lock, with every condition met and enough release signatures. The tax the
    /// tax-compliance contract withholds (amount and collector, as that contract answered
    /// the query [`Self::tax_withholding_query`] gives for this escrow) is paid first, then
    /// the fee, and the seller gets the rest. An amount
    /// in a large-transfer tier instead opens an approval request (unless one is active)
    /// and is refused with `LargeTransferApprovalRequired`.
    pub fn release_funds(
        &mut self,
        caller: AccountId,
        block: u32,
        timestamp: u64,
        escrow_id: u64,
        withheld: Option<(u128, AccountId)>,
    ) -> (r: Result<(), EscrowError>)
        requires
            old(self).wf(),
            old(self)@.request_count < u64::MAX,
        ensures
            final(self).wf(),
            (final(self)@, r) == release_outcome(old(self)@, caller, block as u64, timestamp, escrow_id, withheld),
    {
        if self.reentrancy_guard.locked {
            return Err(EscrowError::ReentrantCall);
        }
        let escrow = match self.escrows.get(&escrow_id) {
            Some(e) => *e,
            None => return Err(EscrowError::EscrowNotFound),
        };
        if escrow.status != EscrowStatus::Active {
            return Err(EscrowError::InvalidStatus);
        }
        match self.disputes.get(&escrow_id) {
            Some(d) => {
                if !d.resolved {
                    return Err(EscrowError::DisputeActive);
                }
            },
            None => {},
        }
        match escrow.release_time_lock {
            Some(t) => {
                if timestamp < t {
                    return Err(EscrowError::TimeLockActive);
                }
            },
            None => {},
        }
        match self.check_all_conditions_met(escrow_id) {
            Ok(true) => {},
            Ok(false) => return Err(EscrowError::ConditionsNotMet),
            Err(e) => return Err(e),
        }
        let signed = lookup_or(&self.signature_counts, &(escrow_id, ApprovalType::Release), 0u8);
        let required = lookup_or(&self.required_signatures, &escrow_id, 0u8);
        if signed < required {
            return Err(EscrowError::SignatureThresholdNotMet);
        }
        let tier = self.classify_transfer_tier(escrow.deposited_amount);
        if tier != TransferApprovalTier::Standard {
            if lookup_or(&self.active_request, &escrow_id, 0u64) == 0 {
                self.open_large_transfer_request(
                    escrow_id,
                    ApprovalType::Release,
                    escrow.deposited_amount,
                    escrow.seller,
                    tier,
                    caller,
                    block,
                );
            }
            return Err(EscrowError::LargeTransferApprovalRequired);
        }
        let mut amount = escrow.deposited_amount;
        if self.tax_compliance_contract.is_some() {
            match withheld {
                Some((tax, collector)) => {
                    if tax > 0 {
                        if !self.transfer(collector, tax) {
                            return Err(EscrowError::InsufficientFunds);
                        }
                        amount = amount.saturating_sub(tax);
                    }
                },
                None => {},
            }
        }
        let fee = match self.fee_recipient {
            Some(recipient) => {
                if self.fee_rate_bps > 0 {
                    let calculated = crate::math::sat_mul(amount, self.fee_rate_bps as u128) / 10_000;
                    if calculated > 0 {
                        if !self.transfer(recipient, calculated) {
                            return Err(EscrowError::InvalidFeeAmount);
                        }
                    }
                    calculated
                } else {
                    0
                }
            },
            None => 0,
        };
        let net = amount.saturating_sub(fee);
        if !self.transfer(escrow.seller, net) {
            return Err(EscrowError::InsufficientFunds);
        }
        let mut done = escrow;
        done.status = EscrowStatus::Released;
        done.completed_at = Some(timestamp);
        self.put_escrow(escrow_id, done);
        self.log_audit(escrow_id, timestamp, caller, String::from_str("FundsReleased"), amount_text(net));
        Ok(())
    }

    /// Refunds escrow `escrow_id` to its buyer once it is active with enough refund
    /// signatures; an amount in a large-transfer tier opens an approval request instead.
    pub fn refund_funds(&mut self, caller: AccountId, block: u32, timestamp: u64, escrow_id: u64) -> (r: Result<
        (),
        EscrowError,
    >)
        requires
            old(self).wf(),
            old(self)@.request_count < u64::MAX,
        ensures
            final(self).wf(),
            (final(self)@, r) == refund_outcome(old(self)@, caller, block as u64, timestamp, escrow_id),
    {
        if self.reentrancy_guard.locked {
            return Err(EscrowError::ReentrantCall);
        }
        let escrow = match self.escrows.get(&escrow_id) {
            Some(e) => *e,
            None => return Err(EscrowError::EscrowNotFound),
        };
        if escrow.status != EscrowStatus::Active {
            return Err(EscrowError::InvalidStatus);
        }
        let signed = lookup_or(&self.signature_counts, &(escrow_id, ApprovalType::Refund), 0u8);
        let required = lookup_or(&self.required_signatures, &escrow_id, 0u8);
        if signed < required {
            return Err(EscrowError::SignatureThresholdNotMet);
        }
        let tier = self.classify_transfer_tier(escrow.deposited_amount);
        if tier != TransferApprovalTier::Standard {
            if lookup_or(&self.active_request, &escrow_id, 0u64) == 0 {
                self.open_large_transfer_request(
                    escrow_id,
                    ApprovalType::Refund,
                    escrow.deposited_amount,
                    escrow.buyer,
                    tier,
                    caller,
                    block,
                );
            }
            return Err(EscrowError::LargeTransferApprovalRequired);
        }
        if !self.transfer(escrow.buyer, escrow.deposited_amount) {
            return Err(EscrowError::InsufficientFunds);
        }
        let mut done = escrow;
        done.status = EscrowStatus::Refunded;
        done.completed_at = Some(timestamp);
        self.put_escrow(escrow_id, done);
        self.log_audit(
            escrow_id,
            timestamp,
            caller,
            String::from_str("FundsRefunded"),
            amount_text(escrow.deposited_amount),
        );
        Ok(())
    }

    /// A signer of the escrow (or the admin) approves an open large-transfer request;
    /// it becomes approved once it has the approvals its tier requires. A request past its
    /// expiry block is marked expired instead, and its escrow left without an active
    /// request.
    pub fn approve_large_transfer(&mut self, caller: AccountId, block: u32, request_id: u64) -> (r: Result<
        (),
        EscrowError,
    >)
        requires
            old(self).wf(),
        ensures
            final(self).wf(),
            ({
                let s = old(self)@;
                if !s.requests.contains_key(request_id) {
                    r == Err::<(), EscrowError>(EscrowError::ApprovalRequestNotFound) && final(self)@ == s
                } else {
                    let q = s.requests[request_id];
                    let approvals = get_or(s.approvals, request_id, Seq::empty());
                    if !is_open(q.status) {
                        r == Err::<(), EscrowError>(EscrowError::InvalidStatus) && final(self)@ == s
                    } else if block as u64 > q.expires_at_block {
                        r == Err::<(), EscrowError>(EscrowError::ApprovalRequestExpired) && final(self)@
                            == closed_request(s, request_id, LargeTransferStatus::Expired)
                    } else if !may_act(s, q.escrow_id, caller) {
                        r == Err::<(), EscrowError>(EscrowError::Unauthorized) && final(self)@ == s
                    } else if listed(approvals, caller) {
                        r == Err::<(), EscrowError>(EscrowError::AlreadySigned) && final(self)@ == s
                    } else {
                        let a2 = approvals.push(caller);
                        r == Ok::<(), EscrowError>(()) && final(self)@ == (EscrowState {
                            approvals: s.approvals.insert(request_id, a2),
                            requests: s.requests.insert(
                                request_id,
                                LargeTransferRecord {
                                    status: if a2.len() >= q.required_approvals {
                                        LargeTransferStatus::Approved
                                    } else {
                                        q.status
                                    },
                                    ..q
                                },
                            ),
                            ..s
                        })
                    }
                }
            }),
    {
        let mut q = match self.requests.get(&request_id) {
            Some(q) => *q,
            None => return Err(EscrowError::ApprovalRequestNotFound),
        };
        if !(q.status == LargeTransferStatus::Pending || q.status == LargeTransferStatus::Approved) {
            return Err(EscrowError::InvalidStatus);
        }
        if block as u64 > q.expires_at_block {
            q.status = LargeTransferStatus::Expired;
            self.requests.insert(request_id, q);
            self.active_request.insert(q.escrow_id, 0);
            assert(self@ =~= closed_request(old(self)@, request_id, LargeTransferStatus::Expired));
            return Err(EscrowError::ApprovalRequestExpired);
        }
        if !self.may_act_on(q.escrow_id, caller) {
            return Err(EscrowError::Unauthorized);
        }
        let mut approvals = self.approvals_list(request_id);
        if is_listed(&approvals, caller) {
            return Err(EscrowError::AlreadySigned);
        }
        approvals.push(caller);
        if approvals.len() >= q.required_approvals as usize {
            q.status = LargeTransferStatus::Approved;
        }
        self.put_approvals(request_id, approvals);
        self.requests.insert(request_id, q);
        Ok(())
    }

    /// The initiator, a signer of the escrow or the admin cancels an open large-transfer
    /// request; the escrow is left without an active request.
    pub fn cancel_large_transfer(&mut self, caller: AccountId, request_id: u64) -> (r: Result<(), EscrowError>)
        requires
            old(self).wf(),
        ensures
            final(self).wf(),
            ({
                let s = old(self)@;
                if !s.requests.contains_key(request_id) {
                    r == Err::<(), EscrowError>(EscrowError::ApprovalRequestNotFound) && final(self)@ == s
                } else {
                    let q = s.requests[request_id];
                    if !is_open(q.status) {
                        r == Err::<(), EscrowError>(EscrowError::InvalidStatus) && final(self)@ == s
                    } else if caller != q.initiated_by && !may_act(s, q.escrow_id, caller) {
                        r == Err::<(), EscrowError>(EscrowError::Unauthorized) && final(self)@ == s
                    } else {
                        r == Ok::<(), EscrowError>(()) && final(self)@ == closed_request(
                            s,
                            request_id,
                            LargeTransferStatus::Cancelled,
                        )
                    }
                }
            }),
    {
        let mut q = match self.requests.get(&request_id) {
            Some(q) => *q,
            None => return Err(EscrowError::ApprovalRequestNotFound),
        };
        if !(q.status == LargeTransferStatus::Pending || q.status == LargeTransferStatus::Approved) {
            return Err(EscrowError::InvalidStatus);
        }
        if caller != q.initiated_by && !self.may_act_on(q.escrow_id, caller) {
            return Err(EscrowError::Unauthorized);
        }
        q.status = LargeTransferStatus::Cancelled;
        self.requests.insert(request_id, q);
        self.active_request.insert(q.escrow_id, 0);
        assert(self@ =~= closed_request(old(self)@, request_id, LargeTransferStatus::Cancelled));
        Ok(())
    }

    /// Carries out an approved large-transfer request: the amount goes to the seller
    /// (release) or the buyer (refund) and the escrow is closed.
    pub fn execute_large_transfer(&mut self, block: u32, timestamp: u64, request_id: u64) -> (r: Result<
        (),
        EscrowError,
    >)
        requires
            old(self).wf(),
        ensures
            final(self).wf(),
            (final(self)@, r) == execute_outcome(old(self)@, block as u64, timestamp, request_id),
    {
        if self.reentrancy_guard.locked {
            return Err(EscrowError::ReentrantCall);
        }
        let mut q = match self.requests.get(&request_id) {
            Some(q) => *q,
            None => return Err(EscrowError::ApprovalRequestNotFound),
        };
        if q.status != LargeTransferStatus::Approved {
            return Err(EscrowError::ApprovalNotComplete);
        }
        if block as u64 > q.expires_at_block {
            q.status = LargeTransferStatus::Expired;
            self.requests.insert(request_id, q);
            assert(self@ =~= execute_outcome(old(self)@, block as u64, timestamp, request_id).0);
            return Err(EscrowError::ApprovalRequestExpired);
        }
        let mut escrow = match self.escrows.get(&q.escrow_id) {
            Some(e) => *e,
            None => return Err(EscrowError::EscrowNotFound),
        };
        if escrow.status != EscrowStatus::Active {
            return Err(EscrowError::InvalidStatus);
        }
        match q.approval_type {
            ApprovalType::Release => {
                if !self.transfer(escrow.seller, q.amount) {
                    return Err(EscrowError::InsufficientFunds);
                }
                escrow.status = EscrowStatus::Released;
            },
            ApprovalType::Refund => {
                if !self.transfer(escrow.buyer, q.amount) {
                    return Err(EscrowError::InsufficientFunds);
                }
                escrow.status = EscrowStatus::Refunded;
            },
            ApprovalType::EmergencyOverride => return Err(EscrowError::InvalidApprovalType),
        }
        escrow.completed_at = Some(timestamp);
        self.put_escrow(q.escrow_id, escrow);
        q.status = LargeTransferStatus::Executed;
        self.requests.insert(request_id, q);
        self.active_request.insert(q.escrow_id, 0);
        assert(self@ =~= execute_outcome(old(self)@, block as u64, timestamp, request_id).0);
        Ok(())
    }

    /// The admin pays out escrow `escrow_id` at once, to the seller or back to the
    /// buyer, bypassing signatures, conditions and the large-transfer gate.
    pub fn emergency_override(&mut self, caller: AccountId, timestamp: u64, escrow_id: u64, release_to_seller: bool) -> (r:
        Result<(), EscrowError>)
        requires
            old(self).wf(),
        ensures
            final(self).wf(),
            ({
                let s = old(self)@;
                if caller != s.admin {
                    r == Err::<(), EscrowError>(EscrowError::Unauthorized) && final(self)@ == s
                } else if !s.escrows.contains_key(escrow_id) {
                    r == Err::<(), EscrowError>(EscrowError::EscrowNotFound) && final(self)@ == s
                } else {
                    let e = s.escrows[escrow_id];
                    if e.status == EscrowStatus::Released || e.status == EscrowStatus::Refunded
                        || e.status == EscrowStatus::Cancelled {
                        r == Err::<(), EscrowError>(EscrowError::InvalidStatus) && final(self)@ == s
                    } else if e.deposited_amount > s.balance {
                        r == Err::<(), EscrowError>(EscrowError::InsufficientFunds) && final(self)@ == s
                    } else {
                        let (to, status) = if release_to_seller {
                            (e.seller, EscrowStatus::Released)
                        } else {
                            (e.buyer, EscrowStatus::Refunded)
                        };
                        r == Ok::<(), EscrowError>(()) && final(self)@ == with_escrow(
                            paid(s, to, e.deposited_amount),
                            escrow_id,
                            completed(e, status, timestamp),
                        )
                    }
                }
            }),
    {
        if caller != self.admin {
            return Err(EscrowError::Unauthorized);
        }
        let mut escrow = match self.escrows.get(&escrow_id) {
            Some(e) => *e,
            None => return Err(EscrowError::EscrowNotFound),
        };
        if escrow.status == EscrowStatus::Released || escrow.status == EscrowStatus::Refunded
            || escrow.status == EscrowStatus::Cancelled {
            return Err(EscrowError::InvalidStatus);
        }
        let to = if release_to_seller {
            escrow.seller
        } else {
            escrow.buyer
        };
        if !self.transfer(to, escrow.deposited_amount) {
            return Err(EscrowError::InsufficientFunds);
        }
        escrow.status = if release_to_seller {
            EscrowStatus::Released
        } else {
            EscrowStatus::Refunded
        };
        escrow.completed_at = Some(timestamp);
        self.put_escrow(escrow_id, escrow);
        Ok(())
    }

    /// The large-transfer request `request_id` with its approvals, if there is one.
    pub fn get_large_transfer_request(&self, request_id: u64) -> (r: Option<LargeTransferRequest>)
        requires
            self.wf(),
        ensures
            !self@.requests.contains_key(request_id) ==> r is None,
            self@.requests.contains_key(request_id) ==> r is Some && {
                let q = self@.requests[request_id];
                let d = r->0;
                &&& d.request_id == q.request_id && d.escrow_id == q.escrow_id
                &&& d.approval_type == q.approval_type && d.amount == q.amount
                &&& d.recipient == q.recipient && d.tier == q.tier
                &&& d.required_approvals == q.required_approvals
                &&& d.approvals@ == get_or(self@.approvals, request_id, Seq::empty())
                &&& d.initiated_by == q.initiated_by && d.created_at_block == q.created_at_block
                &&& d.expires_at_block == q.expires_at_block && d.status == q.status
            },
    {
        let q = match self.requests.get(&request_id) {
            Some(q) => *q,
            None => return None,
        };
        Some(
            LargeTransferRequest {
                request_id: q.request_id,
                escrow_id: q.escrow_id,
                approval_type: q.approval_type,
                amount: q.amount,
                recipient: q.recipient,
                tier: q.tier,
                required_approvals: q.required_approvals,
                approvals: self.approvals_list(request_id),
                initiated_by: q.initiated_by,
                created_at_block: q.created_at_block,
                expires_at_block: q.expires_at_block,
                status: q.status,
            },
        )
    }

    /// The id of the large-transfer request active for escrow `escrow_id`, 0 when none.
    pub fn get_active_large_transfer_request(&self, escrow_id: u64) -> (r: u64)
        requires
            self.wf(),
        ensures
            r == get_or(self@.active_request, escrow_id, 0u64),
    {
        lookup_or(&self.active_request, &escrow_id, 0u64)
    }
}

/// The tax a tax-compliance answer withholds (nothing when there is no answer).
pub open spec fn withheld_tax(withheld: Option<(u128, AccountId)>) -> u128 {
    match withheld {
        Some(w) => w.0,
        None => 0,
    }
}

/// The total of a list of payouts.
pub open spec fn total_paid(payouts: Seq<(AccountId, u128)>) -> int
    decreases payouts.len(),
{
    if payouts.len() == 0 {
        0
    } else {
        total_paid(payouts.drop_last()) + payouts.last().1
    }
}

proof fn lemma_total_paid_push(payouts: Seq<(AccountId, u128)>, p: (AccountId, u128))
    ensures
        total_paid(payouts.push(p)) == total_paid(payouts) + p.1,
{
    assert(payouts.push(p).drop_last() =~= payouts);
}

proof fn lemma_paid_adds(s: EscrowState, to: AccountId, amount: u128)
    requires
        amount <= s.balance,
    ensures
        total_paid(paid(s, to, amount).payouts) == total_paid(s.payouts) + amount,
        paid(s, to, amount).balance == s.balance - amount,
        paid(s, to, amount).payouts.subrange(0, s.payouts.len() as int) == s.payouts,
{
    lemma_total_paid_push(s.payouts, (to, amount));
    assert(paid(s, to, amount).payouts.subrange(0, s.payouts.len() as int) =~= s.payouts);
}

/// A release moves out exactly what the escrow held: the earlier payouts stay as they
/// were, the new ones (tax, fee and the seller's share) add up to the deposit, and the
/// contract's balance falls by the same amount. This holds whenever the tax withheld
/// does not exceed the deposit and the fee rate is at most the whole amount.
pub proof fn lemma_release_conserves_funds(
    s: EscrowState,
    caller: AccountId,
    block: u64,
    timestamp: u64,
    escrow_id: u64,
    withheld: Option<(u128, AccountId)>,
)
    requires
        s.fee_rate_bps <= 10_000,
        release_outcome(s, caller, block, timestamp, escrow_id, withheld).1 is Ok,
        s.tax_compliance_contract is Some ==> withheld_tax(withheld) <= s.escrows[escrow_id].deposited_amount,
    ensures
        ({
            let s2 = release_outcome(s, caller, block, timestamp, escrow_id, withheld).0;
            let deposit = s.escrows[escrow_id].deposited_amount;
            &&& s2.payouts.len() >= s.payouts.len()
            &&& s2.payouts.subrange(0, s.payouts.len() as int) == s.payouts
            &&& total_paid(s2.payouts) == total_paid(s.payouts) + deposit
            &&& s2.balance == s.balance - deposit
        }),
{
    let e = s.escrows[escrow_id];
    let (tax, collector) = match withheld {
        Some(w) => w,
        None => (0u128, s.admin),
    };
    let taxed = s.tax_compliance_contract is Some && tax > 0;
    let s1 = if taxed {
        paid(s, collector, tax)
    } else {
        s
    };
    if taxed {
        lemma_paid_adds(s, collector, tax);
    }
    let amount = if taxed {
        ssub(e.deposited_amount, tax)
    } else {
        e.deposited_amount
    };
    let fee = if s.fee_rate_bps > 0 && s.fee_recipient is Some {
        smul(amount, s.fee_rate_bps as u128) / 10_000
    } else {
        0
    };
    assert(fee <= amount) by (nonlinear_arith)
        requires
            fee == (if s.fee_rate_bps > 0 && s.fee_recipient is Some {
                smul(amount, s.fee_rate_bps as u128) / 10_000
            } else {
                0
            }),
            s.fee_rate_bps <= 10_000,
            smul(amount, s.fee_rate_bps as u128) <= amount * s.fee_rate_bps,
    ;
    let s2 = if fee > 0 {
        paid(s1, s.fee_recipient->0, fee)
    } else {
        s1
    };
    if fee > 0 {
        lemma_paid_adds(s1, s.fee_recipient->0, fee);
    }
    let net = ssub(amount, fee);
    lemma_paid_adds(s2, e.seller, net);
    let s3 = paid(s2, e.seller, net);
    assert(s3.payouts.subrange(0, s.payouts.len() as int) =~= s.payouts) by {
        assert(s3.payouts.subrange(0, s2.payouts.len() as int) == s2.payouts);
        assert(s2.payouts.subrange(0, s1.payouts.len() as int) == s1.payouts);
        assert(s1.payouts.subrange(0, s.payouts.len() as int) == s.payouts);
        assert forall|i: int| 0 <= i < s.payouts.len() implies s3.payouts[i] == s.payouts[i] by {
            assert(s3.payouts.subrange(0, s2.payouts.len() as int)[i] == s2.payouts[i]);
            assert(s2.payouts.subrange(0, s1.payouts.len() as int)[i] == s1.payouts[i]);
            assert(s1.payouts.subrange(0, s.payouts.len() as int)[i] == s.payouts[i]);
        }
    }
}

/// Funds leave an escrow once: after a successful release, releasing or refunding the
/// same escrow again is refused with `InvalidStatus`, and nothing more is paid.
pub proof fn lemma_release_is_final(
    s: EscrowState,
    caller: AccountId,
    block: u64,
    timestamp: u64,
    escrow_id: u64,
    withheld: Option<(u128, AccountId)>,
    caller2: AccountId,
    block2: u64,
    timestamp2: u64,
    withheld2: Option<(u128, AccountId)>,
)
    requires
        release_outcome(s, caller, block, timestamp, escrow_id, withheld).1 is Ok,
    ensures
        ({
            let s2 = release_outcome(s, caller, block, timestamp, escrow_id, withheld).0;
            &&& release_outcome(s2, caller2, block2, timestamp2, escrow_id, withheld2) == (
            s2,
            Err::<(), EscrowError>(EscrowError::InvalidStatus),
            )
            &&& refund_outcome(s2, caller2, block2, timestamp2, escrow_id) == (
            s2,
            Err::<(), EscrowError>(EscrowError::InvalidStatus),
            )
        }),
{
}

} // verus!
