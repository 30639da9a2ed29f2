//! Signatures, conditions, disputes and documents of an escrow.
use vstd::prelude::*;
use vstd::string::StringExecFns;

use crate::common::{get_or, is_listed, listed, lookup_or, AccountId, Hash32};
use crate::escrow::{
    audit_record, audited, may_act, signers_of, with_escrow, AdvancedEscrow, ApprovalType, Condition,
    DisputeInfo, DocumentHash, EscrowError, EscrowState, EscrowStatus,
};

verus! {

/// `n + 1`, capped at `u8::MAX`.
pub open spec fn inc8(n: u8) -> u8 {
    if n < u8::MAX {
        (n + 1) as u8
    } else {
        u8::MAX
    }
}

/// Whether every condition of escrow `escrow_id` numbered 1 to `n` is met.
pub open spec fn met_upto(s: EscrowState, escrow_id: u64, n: u64) -> bool {
    forall|c: u64|
        1 <= c <= n && #[trigger] s.conditions.contains_key((escrow_id, c)) ==> s.conditions[(
        escrow_id,
        c,
    )].met
}

/// Whether every condition of escrow `escrow_id` is met (vacuously, when it has none).
pub open spec fn all_conditions_met(s: EscrowState, escrow_id: u64) -> bool {
    met_upto(s, escrow_id, get_or(s.condition_counters, escrow_id, 0u64))
}

/// The conditions of escrow `escrow_id` numbered 1 to `n`, in order.
pub open spec fn conditions_upto(s: EscrowState, escrow_id: u64, n: u64) -> Seq<Condition>
    decreases n,
{
    if n == 0 {
        Seq::empty()
    } else if s.conditions.contains_key((escrow_id, n)) {
        conditions_upto(s, escrow_id, (n - 1) as u64).push(s.conditions[(escrow_id, n)])
    } else {
        conditions_upto(s, escrow_id, (n - 1) as u64)
    }
}

/// The documents of escrow `escrow_id` numbered 1 to `n`, in order.
pub open spec fn documents_upto(s: EscrowState, escrow_id: u64, n: u64) -> Seq<DocumentHash>
    decreases n,
{
    if n == 0 {
        Seq::empty()
    } else if s.documents.contains_key((escrow_id, n)) {
        documents_upto(s, escrow_id, (n - 1) as u64).push(s.documents[(escrow_id, n)])
    } else {
        documents_upto(s, escrow_id, (n - 1) as u64)
    }
}

/// The number of the first document of escrow `escrow_id` among 1 to `n` with hash
/// `hash`, or 0 when there is none.
pub open spec fn document_index(s: EscrowState, escrow_id: u64, hash: Hash32, n: u64) -> u64
    decreases n,
{
    if n == 0 {
        0
    } else {
        let prev = document_index(s, escrow_id, hash, (n - 1) as u64);
        if prev != 0 {
            prev
        } else if s.documents.contains_key((escrow_id, n)) && s.documents[(escrow_id, n)].hash
            == hash {
            n
        } else {
            0
        }
    }
}

/// Whether `caller` is a party to escrow `e`: its buyer, its seller or a signer.
pub open spec fn is_party(s: EscrowState, escrow_id: u64, caller: AccountId) -> bool {
    let e = s.escrows[escrow_id];
    caller == e.buyer || caller == e.seller || listed(signers_of(s, escrow_id), caller)
}

impl AdvancedEscrow {
    /// A signer of escrow `escrow_id` signs an approval of kind `approval_type`, once.
    pub fn sign_approval(&mut self, caller: AccountId, escrow_id: u64, approval_type: ApprovalType) -> (r:
        Result<(), EscrowError>)
        requires
            old(self).wf(),
        ensures
            final(self).wf(),
            ({
                let s = old(self)@;
                if !s.escrows.contains_key(escrow_id) {
                    r == Err::<(), EscrowError>(EscrowError::EscrowNotFound) && final(self)@ == s
                } else if !listed(signers_of(s, escrow_id), caller) {
                    r == Err::<(), EscrowError>(EscrowError::Unauthorized) && final(self)@ == s
                } else if get_or(s.signatures, (escrow_id, approval_type, caller), false) {
                    r == Err::<(), EscrowError>(EscrowError::AlreadySigned) && final(self)@ == s
                } else {
                    r == Ok::<(), EscrowError>(()) && final(self)@ == (EscrowState {
                        signatures: s.signatures.insert((escrow_id, approval_type, caller), true),
                        signature_counts: s.signature_counts.insert(
                            (escrow_id, approval_type),
                            inc8(get_or(s.signature_counts, (escrow_id, approval_type), 0u8)),
                        ),
                        ..s
                    })
                }
            }),
    {
        if !self.escrows.contains(&escrow_id) {
            return Err(EscrowError::EscrowNotFound);
        }
        let signers = self.signers_list(escrow_id);
        if !is_listed(&signers, caller) {
            return Err(EscrowError::Unauthorized);
        }
        if lookup_or(&self.signatures, &(escrow_id, approval_type, caller), false) {
            return Err(EscrowError::AlreadySigned);
        }
        self.signatures.insert((escrow_id, approval_type, caller), true);
        let count = lookup_or(&self.signature_counts, &(escrow_id, approval_type), 0u8);
        self.signature_counts.insert((escrow_id, approval_type), count.saturating_add(1));
        assert(self@ =~= EscrowState {
            signatures: old(self)@.signatures.insert((escrow_id, approval_type, caller), true),
            signature_counts: old(self)@.signature_counts.insert(
                (escrow_id, approval_type),
                inc8(count),
            ),
            ..old(self)@
        });
        Ok(())
    }

    /// Whether `account` signed an approval of kind `approval_type` for escrow `escrow_id`.
    pub fn has_signed(&self, escrow_id: u64, approval_type: ApprovalType, account: AccountId) -> (r: bool)
        requires
            self.wf(),
        ensures
            r == get_or(self@.signatures, (escrow_id, approval_type, account), false),
    {
        lookup_or(&self.signatures, &(escrow_id, approval_type, account), false)
    }

    /// Signatures collected for an approval of kind `approval_type` of escrow `escrow_id`.
    pub fn get_signature_count(&self, escrow_id: u64, approval_type: ApprovalType) -> (r: u8)
        requires
            self.wf(),
        ensures
            r == get_or(self@.signature_counts, (escrow_id, approval_type), 0u8),
    {
        lookup_or(&self.signature_counts, &(escrow_id, approval_type), 0u8)
    }

    /// A participant (or the admin) adds a condition to escrow `escrow_id`; returns its
    /// number, counting from 1. The audit trail records the condition's description.
    pub fn add_condition(&mut self, caller: AccountId, timestamp: u64, escrow_id: u64, description: String) -> (r:
        Result<u64, EscrowError>)
        requires
            old(self).wf(),
            get_or(old(self)@.condition_counters, escrow_id, 0u64) < u64::MAX,
        ensures
            final(self).wf(),
            ({
                let s = old(self)@;
                let n = (get_or(s.condition_counters, escrow_id, 0u64) + 1) as u64;
                if !s.escrows.contains_key(escrow_id) {
                    r == Err::<u64, EscrowError>(EscrowError::EscrowNotFound) && final(self)@ == s
                } else if !may_act(s, escrow_id, caller) {
                    r == Err::<u64, EscrowError>(EscrowError::Unauthorized) && final(self)@ == s
                } else {
                    r == Ok::<u64, EscrowError>(n) && final(self)@ == audited(
                        EscrowState {
                            conditions: s.conditions.insert(
                                (escrow_id, n),
                                Condition {
                                    id: n,
                                    description,
                                    met: false,
                                    verified_by: None,
                                    verified_at: None,
                                },
                            ),
                            condition_counters: s.condition_counters.insert(escrow_id, n),
                            ..s
                        },
                        escrow_id,
                        audit_record(timestamp, caller, "ConditionAdded"@, description@),
                    )
                }
            }),
    {
        if !self.escrows.contains(&escrow_id) {
            return Err(EscrowError::EscrowNotFound);
        }
        if !self.may_act_on(escrow_id, caller) {
            return Err(EscrowError::Unauthorized);
        }
        let n = lookup_or(&self.condition_counters, &escrow_id, 0u64) + 1;
        let details = description.clone();
        let c = Condition { id: n, description, met: false, verified_by: None, verified_at: None };
        let ghost cv = c;
        self.conditions.insert((escrow_id, n), c);
        self.condition_counters.insert(escrow_id, n);
        assert(self@ =~= EscrowState {
            conditions: old(self)@.conditions.insert((escrow_id, n), cv),
            condition_counters: old(self)@.condition_counters.insert(escrow_id, n),
            ..old(self)@
        });
        self.log_audit(escrow_id, timestamp, caller, String::from_str("ConditionAdded"), details);
        Ok(n)
    }

    /// A participant (or the admin) records that condition `condition_id` of escrow
    /// `escrow_id` is met.
    pub fn mark_condition_met(&mut self, caller: AccountId, timestamp: u64, escrow_id: u64, condition_id: u64) -> (r:
        Result<(), EscrowError>)
        requires
            old(self).wf(),
        ensures
            final(self).wf(),
            ({
                let s = old(self)@;
                if !s.escrows.contains_key(escrow_id) {
                    r == Err::<(), EscrowError>(EscrowError::EscrowNotFound) && final(self)@ == s
                } else if !may_act(s, escrow_id, caller) {
                    r == Err::<(), EscrowError>(EscrowError::Unauthorized) && final(self)@ == s
                } else if !s.conditions.contains_key((escrow_id, condition_id)) {
                    r == Err::<(), EscrowError>(EscrowError::ConditionNotFound) && final(self)@ == s
                } else {
                    let c = s.conditions[(escrow_id, condition_id)];
                    r == Ok::<(), EscrowError>(()) && final(self)@ == (EscrowState {
                        conditions: s.conditions.insert(
                            (escrow_id, condition_id),
                            Condition {
                                met: true,
                                verified_by: Some(caller),
                                verified_at: Some(timestamp),
                                ..c
                            },
                        ),
                        ..s
                    })
                }
            }),
    {
        if !self.escrows.contains(&escrow_id) {
            return Err(EscrowError::EscrowNotFound);
        }
        if !self.may_act_on(escrow_id, caller) {
            return Err(EscrowError::Unauthorized);
        }
        let mut c = match self.conditions.get(&(escrow_id, condition_id)) {
            Some(c) => c.copy(),
            None => return Err(EscrowError::ConditionNotFound),
        };
        c.met = true;
        c.verified_by = Some(caller);
        c.verified_at = Some(timestamp);
        let ghost cv = c;
        self.conditions.insert((escrow_id, condition_id), c);
        assert(self@ =~= EscrowState {
            conditions: old(self)@.conditions.insert((escrow_id, condition_id), cv),
            ..old(self)@
        });
        Ok(())
    }

    /// Whether every condition of escrow `escrow_id` is met.
    pub fn check_all_conditions_met(&self, escrow_id: u64) -> (r: Result<bool, EscrowError>)
        requires
            self.wf(),
        ensures
            !self@.escrows.contains_key(escrow_id) ==> r == Err::<bool, EscrowError>(
                EscrowError::EscrowNotFound,
            ),
            self@.escrows.contains_key(escrow_id) ==> r == Ok::<bool, EscrowError>(
                all_conditions_met(self@, escrow_id),
            ),
    {
        if !self.escrows.contains(&escrow_id) {
            return Err(EscrowError::EscrowNotFound);
        }
        let count = lookup_or(&self.condition_counters, &escrow_id, 0u64);
        let mut c: u64 = 0;
        while c < count
            invariant
                self.wf(),
                self@.escrows.contains_key(escrow_id),
                count == get_or(self@.condition_counters, escrow_id, 0u64),
                c <= count,
                met_upto(self@, escrow_id, c),
            decreases count - c,
        {
            c = c + 1;
            match self.conditions.get(&(escrow_id, c)) {
                Some(cond) => {
                    if !cond.met {
                        assert(!met_upto(self@, escrow_id, count)) by {
                            assert(self@.conditions.contains_key((escrow_id, c)));
                        }
                        return Ok(false);
                    }
                },
                None => {},
            }
            assert(met_upto(self@, escrow_id, c)) by {
                assert forall|k: u64|
                    1 <= k <= c && #[trigger] self@.conditions.contains_key(
                        (escrow_id, k),
                    ) implies self@.conditions[(escrow_id, k)].met by {
                    if k < c {
                        assert(met_upto(self@, escrow_id, (c - 1) as u64));
                    }
                }
            }
        }
        Ok(true)
    }

    /// The conditions of escrow `escrow_id`, in the order they were added.
    pub fn get_conditions(&self, escrow_id: u64) -> (r: Vec<Condition>)
        requires
            self.wf(),
        ensures
            r@ == conditions_upto(self@, escrow_id, get_or(self@.condition_counters, escrow_id, 0u64)),
    {
        let count = lookup_or(&self.condition_counters, &escrow_id, 0u64);
        let mut out: Vec<Condition> = Vec::new();
        let mut c: u64 = 0;
        while c < count
            invariant
                self.wf(),
                count == get_or(self@.condition_counters, escrow_id, 0u64),
                c <= count,
                out@ == conditions_upto(self@, escrow_id, c),
            decreases count - c,
        {
            c = c + 1;
            match self.conditions.get(&(escrow_id, c)) {
                Some(cond) => out.push(cond.copy()),
                None => {},
            }
        }
        out
    }

    /// A party to escrow `escrow_id` raises a dispute, which blocks releases until the
    /// admin resolves it.
    pub fn raise_dispute(&mut self, caller: AccountId, timestamp: u64, escrow_id: u64, reason: String) -> (r:
        Result<(), EscrowError>)
        requires
            old(self).wf(),
        ensures
            final(self).wf(),
            ({
                let s = old(self)@;
                if !s.escrows.contains_key(escrow_id) {
                    r == Err::<(), EscrowError>(EscrowError::EscrowNotFound) && final(self)@ == s
                } else if !is_party(s, escrow_id, caller) {
                    r == Err::<(), EscrowError>(EscrowError::Unauthorized) && final(self)@ == s
                } else if s.disputes.contains_key(escrow_id) && !s.disputes[escrow_id].resolved {
                    r == Err::<(), EscrowError>(EscrowError::DisputeActive) && final(self)@ == s
                } else {
                    let e = s.escrows[escrow_id];
                    if e.status == EscrowStatus::Released || e.status == EscrowStatus::Refunded
                        || e.status == EscrowStatus::Cancelled {
                        r == Err::<(), EscrowError>(EscrowError::InvalidStatus) && final(self)@ == s
                    } else {
                        r == Ok::<(), EscrowError>(()) && final(self)@ == (EscrowState {
                            disputes: s.disputes.insert(
                                escrow_id,
                                DisputeInfo {
                                    escrow_id,
                                    raised_by: caller,
                                    reason,
                                    raised_at: timestamp,
                                    resolved: false,
                                    resolution: None,
                                },
                            ),
                            escrows: s.escrows.insert(
                                escrow_id,
                                crate::escrow::EscrowRecord { status: EscrowStatus::Disputed, ..e },
                            ),
                            ..s
                        })
                    }
                }
            }),
    {
        let mut e = match self.escrows.get(&escrow_id) {
            Some(e) => *e,
            None => return Err(EscrowError::EscrowNotFound),
        };
        let signers = self.signers_list(escrow_id);
        if !(caller == e.buyer || caller == e.seller || is_listed(&signers, caller)) {
            return Err(EscrowError::Unauthorized);
        }
        match self.disputes.get(&escrow_id) {
            Some(d) => {
                if !d.resolved {
                    return Err(EscrowError::DisputeActive);
                }
            },
            None => {},
        }
        if e.status == EscrowStatus::Released || e.status == EscrowStatus::Refunded || e.status
            == EscrowStatus::Cancelled {
            return Err(EscrowError::InvalidStatus);
        }
        let d = DisputeInfo {
            escrow_id,
            raised_by: caller,
            reason,
            raised_at: timestamp,
            resolved: false,
            resolution: None,
        };
        let ghost dv = d;
        self.disputes.insert(escrow_id, d);
        e.status = EscrowStatus::Disputed;
        self.escrows.insert(escrow_id, e);
        assert(self@ =~= EscrowState {
            disputes: old(self)@.disputes.insert(escrow_id, dv),
            escrows: old(self)@.escrows.insert(escrow_id, e),
            ..old(self)@
        });
        Ok(())
    }

    /// The admin resolves the open dispute of escrow `escrow_id`, which becomes active
    /// again.
    pub fn resolve_dispute(&mut self, caller: AccountId, escrow_id: u64, resolution: String) -> (r: Result<
        (),
        EscrowError,
    >)
        requires
            old(self).wf(),
        ensures
            final(self).wf(),
            ({
                let s = old(self)@;
                if caller != s.admin {
                    r == Err::<(), EscrowError>(EscrowError::Unauthorized) && final(self)@ == s
                } else if !s.disputes.contains_key(escrow_id) {
                    r == Err::<(), EscrowError>(EscrowError::DisputeNotFound) && final(self)@ == s
                } else if s.disputes[escrow_id].resolved {
                    r == Err::<(), EscrowError>(EscrowError::InvalidStatus) && final(self)@ == s
                } else {
                    let s1 = EscrowState {
                        disputes: s.disputes.insert(
                            escrow_id,
                            DisputeInfo {
                                resolved: true,
                                resolution: Some(resolution),
                                ..s.disputes[escrow_id]
                            },
                        ),
                        ..s
                    };
                    r == Ok::<(), EscrowError>(()) && final(self)@ == if s.escrows.contains_key(
                        escrow_id,
                    ) {
                        with_escrow(
                            s1,
                            escrow_id,
                            crate::escrow::EscrowRecord {
                                status: EscrowStatus::Active,
                                ..s.escrows[escrow_id]
                            },
                        )
                    } else {
                        s1
                    }
                }
            }),
    {
        if caller != self.admin {
            return Err(EscrowError::Unauthorized);
        }
        let mut d = match self.disputes.get(&escrow_id) {
            Some(d) => d.copy(),
            None => return Err(EscrowError::DisputeNotFound),
        };
        if d.resolved {
            return Err(EscrowError::InvalidStatus);
        }
        d.resolved = true;
        d.resolution = Some(resolution);
        let ghost dv = d;
        self.disputes.insert(escrow_id, d);
        assert(self@ =~= EscrowState {
            disputes: old(self)@.disputes.insert(escrow_id, dv),
            ..old(self)@
        });
        match self.escrows.get(&escrow_id) {
            Some(e) => {
                let mut e2 = *e;
                e2.status = EscrowStatus::Active;
                self.put_escrow(escrow_id, e2);
            },
            None => {},
        }
        Ok(())
    }

    /// The dispute of escrow `escrow_id`, if one was raised.
    pub fn get_dispute(&self, escrow_id: u64) -> (r: Option<DisputeInfo>)
        requires
            self.wf(),
        ensures
            r == if self@.disputes.contains_key(escrow_id) {
                Some(self@.disputes[escrow_id])
            } else {
                None::<DisputeInfo>
            },
    {
        match self.disputes.get(&escrow_id) {
            Some(d) => Some(d.copy()),
            None => None,
        }
    }

    /// A participant (or the admin) attaches a document, by hash, to escrow `escrow_id`;
    /// the audit trail records the document's type.
    pub fn upload_document(
        &mut self,
        caller: AccountId,
        timestamp: u64,
        escrow_id: u64,
        hash: Hash32,
        document_type: String,
    ) -> (r: Result<(), EscrowError>)
        requires
            old(self).wf(),
            get_or(old(self)@.document_counts, escrow_id, 0u64) < u64::MAX,
        ensures
            final(self).wf(),
            ({
                let s = old(self)@;
                let n = (get_or(s.document_counts, escrow_id, 0u64) + 1) as u64;
                if !s.escrows.contains_key(escrow_id) {
                    r == Err::<(), EscrowError>(EscrowError::EscrowNotFound) && final(self)@ == s
                } else if !may_act(s, escrow_id, caller) {
                    r == Err::<(), EscrowError>(EscrowError::Unauthorized) && final(self)@ == s
                } else {
                    r == Ok::<(), EscrowError>(()) && final(self)@ == audited(
                        EscrowState {
                            documents: s.documents.insert(
                                (escrow_id, n),
                                DocumentHash {
                                    hash,
                                    document_type,
                                    uploaded_by: caller,
                                    uploaded_at: timestamp,
                                    verified: false,
                                },
                            ),
                            document_counts: s.document_counts.insert(escrow_id, n),
                            ..s
                        },
                        escrow_id,
                        audit_record(timestamp, caller, "DocumentUploaded"@, document_type@),
                    )
                }
            }),
    {
        if !self.escrows.contains(&escrow_id) {
            return Err(EscrowError::EscrowNotFound);
        }
        if !self.may_act_on(escrow_id, caller) {
            return Err(EscrowError::Unauthorized);
        }
        let n = lookup_or(&self.document_counts, &escrow_id, 0u64) + 1;
        let details = document_type.clone();
        let d = DocumentHash {
            hash,
            document_type,
            uploaded_by: caller,
            uploaded_at: timestamp,
            verified: false,
        };
        let ghost dv = d;
        self.documents.insert((escrow_id, n), d);
        self.document_counts.insert(escrow_id, n);
        assert(self@ =~= EscrowState {
            documents: old(self)@.documents.insert((escrow_id, n), dv),
            document_counts: old(self)@.document_counts.insert(escrow_id, n),
            ..old(self)@
        });
        self.log_audit(escrow_id, timestamp, caller, String::from_str("DocumentUploaded"), details);
        Ok(())
    }

    /// A participant (or the admin) marks the first document of escrow `escrow_id` with
    /// hash `hash` as verified.
    pub fn verify_document(&mut self, caller: AccountId, escrow_id: u64, hash: Hash32) -> (r: Result<
        (),
        EscrowError,
    >)
        requires
            old(self).wf(),
        ensures
            final(self).wf(),
            ({
                let s = old(self)@;
                let n = document_index(s, escrow_id, hash, get_or(s.document_counts, escrow_id, 0u64));
                if !s.escrows.contains_key(escrow_id) {
                    r == Err::<(), EscrowError>(EscrowError::EscrowNotFound) && final(self)@ == s
                } else if !may_act(s, escrow_id, caller) {
                    r == Err::<(), EscrowError>(EscrowError::Unauthorized) && final(self)@ == s
                } else if n == 0 {
                    r == Err::<(), EscrowError>(EscrowError::DocumentNotFound) && final(self)@ == s
                } else {
                    r == Ok::<(), EscrowError>(()) && final(self)@ == (EscrowState {
                        documents: s.documents.insert(
                            (escrow_id, n),
                            DocumentHash { verified: true, ..s.documents[(escrow_id, n)] },
                        ),
                        ..s
                    })
                }
            }),
    {
        if !self.escrows.contains(&escrow_id) {
            return Err(EscrowError::EscrowNotFound);
        }
        if !self.may_act_on(escrow_id, caller) {
            return Err(EscrowError::Unauthorized);
        }
        let count = lookup_or(&self.document_counts, &escrow_id, 0u64);
        let mut i: u64 = 0;
        let mut found: u64 = 0;
        while i < count
            invariant
                self.wf(),
                count == get_or(self@.document_counts, escrow_id, 0u64),
                i <= count,
                found == document_index(self@, escrow_id, hash, i),
                found != 0 ==> self@.documents.contains_key((escrow_id, found)),
            decreases count - i,
        {
            i = i + 1;
            if found == 0 {
                match self.documents.get(&(escrow_id, i)) {
                    Some(d) => {
                        if d.hash == hash {
                            found = i;
                        }
                    },
                    None => {},
                }
            }
        }
        if found == 0 {
            return Err(EscrowError::DocumentNotFound);
        }
        let mut d = match self.documents.get(&(escrow_id, found)) {
            Some(d) => d.copy(),
            None => return Err(EscrowError::DocumentNotFound),
        };
        d.verified = true;
        let ghost dv = d;
        self.documents.insert((escrow_id, found), d);
        assert(self@ =~= EscrowState {
            documents: old(self)@.documents.insert((escrow_id, found), dv),
            ..old(self)@
        });
        Ok(())
    }

    /// The documents of escrow `escrow_id`, in the order they were uploaded.
    pub fn get_documents(&self, escrow_id: u64) -> (r: Vec<DocumentHash>)
        requires
            self.wf(),
        ensures
            r@ == documents_upto(self@, escrow_id, get_or(self@.document_counts, escrow_id, 0u64)),
    {
        let count = lookup_or(&self.document_counts, &escrow_id, 0u64);
        let mut out: Vec<DocumentHash> = Vec::new();
        let mut i: u64 = 0;
        while i < count
            invariant
                self.wf(),
                count == get_or(self@.document_counts, escrow_id, 0u64),
                i <= count,
                out@ == documents_upto(self@, escrow_id, i),
            decreases count - i,
        {
            i = i + 1;
            match self.documents.get(&(escrow_id, i)) {
                Some(d) => out.push(d.copy()),
                None => {},
            }
        }
        out
    }
}

} // verus!
