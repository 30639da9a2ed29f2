//! Recovering and rolling back failed bridge requests, and the relayer's report that
//! a transfer arrived.
use vstd::prelude::*;
use vstd::string::StringExecFns;

use crate::bridge::requests::{
    chain_update_error, chain_updated, history_of, sigs_of, threshold_kept, ChainStatusUpdate, LedgerState,
    RequestRecord, TrackerRecord,
};
use crate::bridge::{BridgeError, BridgeOperationStatus, ChainTxStatus, PropertyBridge};
use crate::common::{AccountId, Hash32};

verus! {

/// What the admin does with a failed request.
#[derive(Clone, Copy, Debug, PartialEq, Eq, Structural)]
pub enum RecoveryAction {
    /// Release the token on this chain (the token contract does the work).
    UnlockToken,
    /// Refund the gas spent (paid outside the bridge).
    RefundGas,
    /// Start the request over: pending again, with no signature.
    RetryBridge,
    /// Give the request up for good.
    CancelBridge,
}

/// The note a rollback leaves on each leg it fails.
pub open spec fn rollback_note() -> Seq<char> {
    "Bridge rollback"@
}

/// A leg after a rollback at `block` and `timestamp`: a confirmed leg stands; any other
/// fails, keeping its hash and confirmations, with `note` as its error.
pub open spec fn leg_rolled_back(u: ChainStatusUpdate, chain_id: u64, block: u64, timestamp: u64, note: String) -> ChainStatusUpdate {
    ChainStatusUpdate {
        chain_id,
        status: ChainTxStatus::Failed,
        tx_hash: u.tx_hash,
        block_number: block,
        timestamp,
        confirmations: u.confirmations,
        error_message: Some(note),
    }
}

/// The ledger after the tracker of request `request_id` records a rollback: each leg not
/// confirmed fails (source first, each failure joining the history), and the request
/// is failed overall. Nothing changes when the request has no tracker.
pub open spec fn trackers_rolled_back(
    l: LedgerState,
    request_id: u64,
    source_chain: u64,
    destination_chain: u64,
    block: u64,
    timestamp: u64,
    note: String,
) -> LedgerState {
    if !l.trackers.contains_key(request_id) {
        l
    } else {
        let t = l.trackers[request_id];
        let h = history_of(l, request_id);
        let src_fails = t.source_status.status != ChainTxStatus::Confirmed;
        let dst_fails = t.destination_status.status != ChainTxStatus::Confirmed;
        let src = leg_rolled_back(t.source_status, source_chain, block, timestamp, note);
        let dst = leg_rolled_back(t.destination_status, destination_chain, block, timestamp, note);
        let h1 = if src_fails {
            h.push(src)
        } else {
            h
        };
        let h2 = if dst_fails {
            h1.push(dst)
        } else {
            h1
        };
        LedgerState {
            trackers: l.trackers.insert(
                request_id,
                TrackerRecord {
                    source_status: if src_fails {
                        src
                    } else {
                        t.source_status
                    },
                    destination_status: if dst_fails {
                        dst
                    } else {
                        t.destination_status
                    },
                    last_updated: timestamp,
                    overall_status: BridgeOperationStatus::Failed,
                    ..t
                },
            ),
            tracker_history: l.tracker_history.insert(request_id, h2),
            ..l
        }
    }
}

/// The ledger with request `request_id` set to `status` and its signatures cleared.
pub open spec fn request_reset(l: LedgerState, request_id: u64, status: BridgeOperationStatus) -> LedgerState {
    LedgerState {
        requests: l.requests.insert(request_id, RequestRecord { status, ..l.requests[request_id] }),
        signatures: l.signatures.insert(request_id, Seq::empty()),
        ..l
    }
}

/// Rolling back or retrying a request clears its signatures and leaves it failed or
/// pending, which keeps every completed request above its threshold.
pub proof fn lemma_reset_keeps_threshold(
    l: LedgerState,
    request_id: u64,
    status: BridgeOperationStatus,
    source_chain: u64,
    destination_chain: u64,
    block: u64,
    timestamp: u64,
    note: String,
)
    requires
        threshold_kept(l),
        l.requests.contains_key(request_id),
        status != BridgeOperationStatus::Completed,
    ensures
        threshold_kept(request_reset(l, request_id, status)),
        threshold_kept(
            trackers_rolled_back(
                request_reset(l, request_id, status),
                request_id,
                source_chain,
                destination_chain,
                block,
                timestamp,
                note,
            ),
        ),
{
    let l2 = request_reset(l, request_id, status);
    assert forall|id: u64|
        #![trigger l2.requests[id]]
        l2.requests.contains_key(id) && l2.requests[id].status == BridgeOperationStatus::Completed implies sigs_of(
            l2,
            id,
        ).len() >= l2.requests[id].required_signatures by {
        if id != request_id {
            assert(l.requests[id] == l2.requests[id]);
        }
    }
    let l3 = trackers_rolled_back(l2, request_id, source_chain, destination_chain, block, timestamp, note);
    assert forall|id: u64|
        #![trigger l3.requests[id]]
        l3.requests.contains_key(id) && l3.requests[id].status == BridgeOperationStatus::Completed implies sigs_of(
            l3,
            id,
        ).len() >= l3.requests[id].required_signatures by {
        assert(l2.requests[id] == l3.requests[id]);
    }
}

impl PropertyBridge {
    fn fail_cross_chain_status(
        &mut self,
        request_id: u64,
        source_chain: u64,
        destination_chain: u64,
        block: u64,
        timestamp: u64,
    ) -> (note: Ghost<String>)
        requires
            old(self).wf(),
        ensures
            final(self).wf(),
            final(self)@ == old(self)@,
            note@@ == rollback_note(),
            final(self).ledger() == trackers_rolled_back(
                old(self).ledger(),
                request_id,
                source_chain,
                destination_chain,
                block,
                timestamp,
                note@,
            ),
    {
        let msg = String::from_str("Bridge rollback");
        proof {
            reveal_strlit("Bridge rollback");
        }
        let ghost g = msg;
        let mut tracker = match self.ledger.trackers.get(&request_id) {
            Some(t) => t.copy(),
            None => return Ghost(g),
        };
        let ghost l0 = self.ledger@;
        let mut history = match self.ledger.tracker_history.remove(&request_id) {
            Some(h) => h,
            None => Vec::new(),
        };
        assert(history@ == history_of(l0, request_id));
        if tracker.source_status.status != ChainTxStatus::Confirmed {
            let upd = ChainStatusUpdate {
                chain_id: source_chain,
                status: ChainTxStatus::Failed,
                tx_hash: tracker.source_status.tx_hash,
                block_number: block,
                timestamp,
                confirmations: tracker.source_status.confirmations,
                error_message: Some(msg.clone()),
            };
            history.push(upd.copy());
            tracker.source_status = upd;
        }
        if tracker.destination_status.status != ChainTxStatus::Confirmed {
            let upd = ChainStatusUpdate {
                chain_id: destination_chain,
                status: ChainTxStatus::Failed,
                tx_hash: tracker.destination_status.tx_hash,
                block_number: block,
                timestamp,
                confirmations: tracker.destination_status.confirmations,
                error_message: Some(msg.clone()),
            };
            history.push(upd.copy());
            tracker.destination_status = upd;
        }
        tracker.last_updated = timestamp;
        tracker.overall_status = BridgeOperationStatus::Failed;
        let ghost hv = history@;
        self.ledger.tracker_history.insert(request_id, history);
        assert(self.ledger@.tracker_history =~= l0.tracker_history.insert(request_id, hv));
        self.ledger.trackers.insert(request_id, tracker);
        assert(self.ledger@ =~= trackers_rolled_back(l0, request_id, source_chain, destination_chain, block, timestamp, g));
        Ghost(g)
    }

    fn reset_request(&mut self, request_id: u64, q: RequestRecord, status: BridgeOperationStatus)
        requires
            old(self).wf(),
            old(self).ledger().requests.contains_key(request_id),
            q == old(self).ledger().requests[request_id],
        ensures
            final(self).wf(),
            final(self)@ == old(self)@,
            final(self).ledger() == request_reset(old(self).ledger(), request_id, status),
    {
        let ghost l0 = self.ledger@;
        self.ledger.requests.insert(request_id, RequestRecord { status, ..q });
        let empty: Vec<AccountId> = Vec::new();
        self.ledger.signatures.insert(request_id, empty);
        assert(self.ledger@.signatures =~= l0.signatures.insert(request_id, Seq::empty()));
        assert(self.ledger@ =~= request_reset(l0, request_id, status));
    }

    /// The admin rolls back request `request_id` at `block` and `timestamp` for `reason`
    /// (kept for the record by indexers): unless it completed, it fails with its
    /// signatures cleared, and its tracker fails every leg not confirmed (see
    /// [`trackers_rolled_back`]).
    pub fn rollback_bridge_transaction(
        &mut self,
        caller: AccountId,
        block: u64,
        timestamp: u64,
        request_id: u64,
        reason: String,
    ) -> (r: Result<(), BridgeError>)
        requires
            old(self).wf(),
        ensures
            final(self).wf(),
            final(self)@ == old(self)@,
            ({
                let s = old(self)@;
                let l = old(self).ledger();
                if l.locked {
                    r == Err::<(), BridgeError>(BridgeError::ReentrantCall) && final(self).ledger() == l
                } else if caller != s.admin {
                    r == Err::<(), BridgeError>(BridgeError::Unauthorized) && final(self).ledger() == l
                } else if !l.requests.contains_key(request_id) {
                    r == Err::<(), BridgeError>(BridgeError::InvalidRequest) && final(self).ledger() == l
                } else if l.requests[request_id].status == BridgeOperationStatus::Completed {
                    r == Err::<(), BridgeError>(BridgeError::InvalidRequest) && final(self).ledger() == l
                } else {
                    let q = l.requests[request_id];
                    &&& r == Ok::<(), BridgeError>(())
                    &&& exists|note: String|
                        note@ == rollback_note() && final(self).ledger() == #[trigger] trackers_rolled_back(
                            request_reset(l, request_id, BridgeOperationStatus::Failed),
                            request_id,
                            q.source_chain,
                            q.destination_chain,
                            block,
                            timestamp,
                            note,
                        )
                }
            }),
    {
        if self.ledger.locked {
            return Err(BridgeError::ReentrantCall);
        }
        if caller != self.admin {
            return Err(BridgeError::Unauthorized);
        }
        let q = match self.ledger.requests.get(&request_id) {
            Some(q) => *q,
            None => return Err(BridgeError::InvalidRequest),
        };
        if q.status == BridgeOperationStatus::Completed {
            return Err(BridgeError::InvalidRequest);
        }
        self.reset_request(request_id, q, BridgeOperationStatus::Failed);
        let note = self.fail_cross_chain_status(request_id, q.source_chain, q.destination_chain, block, timestamp);
        assert(note@@ == rollback_note());
        Ok(())
    }

    /// The admin recovers failed request `request_id`: a retry makes it pending again
    /// with no signature, a cancellation leaves it failed, and unlocking the token or
    /// refunding gas is left to other contracts, so the request stays as it is.
    pub fn recover_failed_bridge(&mut self, caller: AccountId, request_id: u64, recovery_action: RecoveryAction) -> (r:
        Result<(), BridgeError>)
        requires
            old(self).wf(),
        ensures
            final(self).wf(),
            final(self)@ == old(self)@,
            ({
                let s = old(self)@;
                let l = old(self).ledger();
                if l.locked {
                    r == Err::<(), BridgeError>(BridgeError::ReentrantCall) && final(self).ledger() == l
                } else if caller != s.admin {
                    r == Err::<(), BridgeError>(BridgeError::Unauthorized) && final(self).ledger() == l
                } else if !l.requests.contains_key(request_id) {
                    r == Err::<(), BridgeError>(BridgeError::InvalidRequest) && final(self).ledger() == l
                } else if l.requests[request_id].status != BridgeOperationStatus::Failed {
                    r == Err::<(), BridgeError>(BridgeError::InvalidRequest) && final(self).ledger() == l
                } else {
                    &&& r == Ok::<(), BridgeError>(())
                    &&& final(self).ledger() == if recovery_action == RecoveryAction::RetryBridge {
                        request_reset(l, request_id, BridgeOperationStatus::Pending)
                    } else {
                        l
                    }
                }
            }),
    {
        if self.ledger.locked {
            return Err(BridgeError::ReentrantCall);
        }
        if caller != self.admin {
            return Err(BridgeError::Unauthorized);
        }
        let q = match self.ledger.requests.get(&request_id) {
            Some(q) => *q,
            None => return Err(BridgeError::InvalidRequest),
        };
        if q.status != BridgeOperationStatus::Failed {
            return Err(BridgeError::InvalidRequest);
        }
        match recovery_action {
            RecoveryAction::RetryBridge => {
                self.reset_request(request_id, q, BridgeOperationStatus::Pending);
            },
            _ => {},
        }
        Ok(())
    }

    /// A relayer (the admin or an operator) reports that request `request_id` arrived:
    /// its destination leg is confirmed with `destination_tx_hash` at `block_number`
    /// with `confirmations` (see [`update_chain_tx_status`](PropertyBridge::update_chain_tx_status)).
    pub fn confirm_destination_delivery(
        &mut self,
        caller: AccountId,
        timestamp: u64,
        request_id: u64,
        destination_tx_hash: Hash32,
        block_number: u64,
        confirmations: u32,
    ) -> (r: Result<(), BridgeError>)
        requires
            old(self).wf(),
        ensures
            final(self).wf(),
            final(self)@ == old(self)@,
            ({
                let s = old(self)@;
                let l = old(self).ledger();
                if !l.trackers.contains_key(request_id) {
                    r == Err::<(), BridgeError>(BridgeError::TransactionNotFound) && final(self).ledger() == l
                } else {
                    let chain = l.trackers[request_id].destination_chain;
                    match chain_update_error(s, l, caller, request_id, chain, ChainTxStatus::Confirmed) {
                        Some(e) => r == Err::<(), BridgeError>(e) && final(self).ledger() == l,
                        None => r == Ok::<(), BridgeError>(()) && final(self).ledger() == chain_updated(
                            l,
                            request_id,
                            ChainStatusUpdate {
                                chain_id: chain,
                                status: ChainTxStatus::Confirmed,
                                tx_hash: Some(destination_tx_hash),
                                block_number,
                                timestamp,
                                confirmations,
                                error_message: None,
                            },
                        ),
                    }
                }
            }),
    {
        let chain = match self.ledger.trackers.get(&request_id) {
            Some(t) => t.destination_chain,
            None => return Err(BridgeError::TransactionNotFound),
        };
        self.update_chain_tx_status(
            caller,
            timestamp,
            request_id,
            chain,
            ChainTxStatus::Confirmed,
            Some(destination_tx_hash),
            block_number,
            confirmations,
            None,
        )
    }

    /// Every report on request `request_id`, oldest first.
    pub fn get_tx_status_history(&self, request_id: u64) -> (r: Vec<ChainStatusUpdate>)
        requires
            self.wf(),
        ensures
            r@ == history_of(self.ledger(), request_id),
    {
        match self.ledger.tracker_history.get(&request_id) {
            Some(h) => {
                let mut out: Vec<ChainStatusUpdate> = Vec::new();
                let mut i: usize = 0;
                while i < h.len()
                    invariant
                        i <= h@.len(),
                        out@ == h@.subrange(0, i as int),
                    decreases h@.len() - i,
                {
                    out.push(h[i].copy());
                    i = i + 1;
                }
                assert(h@.subrange(0, h@.len() as int) =~= h@);
                out
            },
            None => Vec::new(),
        }
    }
}

} // verus!
