//! Bridge requests: their initiation under rate limits, validator signatures,
//! execution by operators, and the tracking of each chain's leg of the transfer.
use vstd::prelude::*;
use vstd::string::StringExecFns;

pub mod recovery;
pub mod trades;

use crate::bridge::{
    compute_overall_status, flags_for, is_valid_chain_status_transition, listed_chain,
    op_paused, overall_status, pause_flags_for_reason, paused_state, valid_transition,
    BridgeError, BridgeOperation, BridgeOperationStatus, BridgeState, ChainId, ChainTxStatus,
    PauseReason, PropertyBridge, TokenId, BRIDGE_BASE_GAS,
};
use crate::common::{get_or, is_listed, listed, lookup_or, AccountId, Hash32, Table};
use crate::dex::{BridgeFeeQuote, CrossChainTradeIntent, CrossChainTradeStatus};

verus! {

/// What a bridged property token carries with it.
pub struct PropertyMetadata {
    pub location: String,
    pub size: u64,
    pub legal_description: String,
    pub valuation: u128,
    pub documents_url: String,
}

impl PropertyMetadata {
    /// A field-by-field copy.
    pub fn copy(&self) -> (r: PropertyMetadata)
        ensures
            r == *self,
    {
        PropertyMetadata {
            location: self.location.clone(),
            size: self.size,
            legal_description: self.legal_description.clone(),
            valuation: self.valuation,
            documents_url: self.documents_url.clone(),
        }
    }
}

/// The record of one executed transfer, kept in its sender's history.
pub struct BridgeTransaction {
    pub transaction_id: u64,
    pub token_id: TokenId,
    pub source_chain: ChainId,
    pub destination_chain: ChainId,
    pub sender: AccountId,
    pub recipient: AccountId,
    pub transaction_hash: Hash32,
    pub timestamp: u64,
    pub gas_used: u64,
    pub status: BridgeOperationStatus,
    pub metadata: PropertyMetadata,
}

impl BridgeTransaction {
    /// A field-by-field copy.
    pub fn copy(&self) -> (r: BridgeTransaction)
        ensures
            r == *self,
    {
        BridgeTransaction {
            transaction_id: self.transaction_id,
            token_id: self.token_id,
            source_chain: self.source_chain,
            destination_chain: self.destination_chain,
            sender: self.sender,
            recipient: self.recipient,
            transaction_hash: self.transaction_hash,
            timestamp: self.timestamp,
            gas_used: self.gas_used,
            status: self.status,
            metadata: self.metadata.copy(),
        }
    }
}

/// A bridge request as stored: everything but its signatures and metadata.
#[derive(Clone, Copy, Debug, PartialEq, Eq, Structural)]
pub struct RequestRecord {
    pub request_id: u64,
    pub token_id: TokenId,
    pub source_chain: ChainId,
    pub destination_chain: ChainId,
    pub sender: AccountId,
    pub recipient: AccountId,
    pub required_signatures: u8,
    pub created_at: u64,
    pub expires_at: Option<u64>,
    pub status: BridgeOperationStatus,
}

/// The latest report on one chain's leg of a transfer.
pub struct ChainStatusUpdate {
    pub chain_id: ChainId,
    pub status: ChainTxStatus,
    pub tx_hash: Option<Hash32>,
    pub block_number: u64,
    pub timestamp: u64,
    pub confirmations: u32,
    pub error_message: Option<String>,
}

impl ChainStatusUpdate {
    /// A field-by-field copy.
    pub fn copy(&self) -> (r: ChainStatusUpdate)
        ensures
            r == *self,
    {
        ChainStatusUpdate {
            chain_id: self.chain_id,
            status: self.status,
            tx_hash: self.tx_hash,
            block_number: self.block_number,
            timestamp: self.timestamp,
            confirmations: self.confirmations,
            error_message: match &self.error_message {
                Some(m) => Some(m.clone()),
                None => None,
            },
        }
    }
}

/// The tracker of a request's two legs, without its report history.
pub struct TrackerRecord {
    pub request_id: u64,
    pub token_id: TokenId,
    pub source_chain: ChainId,
    pub destination_chain: ChainId,
    pub source_status: ChainStatusUpdate,
    pub destination_status: ChainStatusUpdate,
    pub overall_status: BridgeOperationStatus,
    pub last_updated: u64,
}

impl TrackerRecord {
    /// A field-by-field copy.
    pub fn copy(&self) -> (r: TrackerRecord)
        ensures
            r == *self,
    {
        TrackerRecord {
            request_id: self.request_id,
            token_id: self.token_id,
            source_chain: self.source_chain,
            destination_chain: self.destination_chain,
            source_status: self.source_status.copy(),
            destination_status: self.destination_status.copy(),
            overall_status: self.overall_status,
            last_updated: self.last_updated,
        }
    }
}

/// What a monitor sees of a request.
#[derive(Clone, Copy, Debug, PartialEq, Eq, Structural)]
pub struct BridgeMonitoringInfo {
    pub bridge_request_id: u64,
    pub token_id: TokenId,
    pub source_chain: ChainId,
    pub destination_chain: ChainId,
    pub status: BridgeOperationStatus,
    pub created_at: u64,
    pub expires_at: Option<u64>,
    pub signatures_collected: u8,
    pub signatures_required: u8,
}

/// The request side of the bridge's abstract state.
pub struct LedgerState {
    pub requests: Map<u64, RequestRecord>,
    pub signatures: Map<u64, Seq<AccountId>>,
    pub metadata: Map<u64, PropertyMetadata>,
    pub request_counter: u64,
    pub transaction_counter: u64,
    pub verified: Map<Hash32, bool>,
    pub trackers: Map<u64, TrackerRecord>,
    pub tracker_history: Map<u64, Seq<ChainStatusUpdate>>,
    pub tx_hash_index: Map<Hash32, u64>,
    pub daily_requests: Map<AccountId, u64>,
    pub last_reset_day: Map<AccountId, u64>,
    pub block_request_count: Map<AccountId, u32>,
    pub block_request_block: Map<AccountId, u64>,
    pub failed_signature_count: u32,
    pub failed_signature_window_start: u64,
    pub locked: bool,
    pub trades: Map<u64, CrossChainTradeIntent>,
    pub trade_counter: u64,
    pub chain_hourly_volume: Map<ChainId, u128>,
    pub chain_hourly_window_start: Map<ChainId, u64>,
    pub chain_daily_volume: Map<ChainId, u128>,
    pub chain_last_reset_day: Map<ChainId, u64>,
    pub history: Map<AccountId, Seq<BridgeTransaction>>,
}

/// The bridge's requests and the counters that police them.
pub struct RequestLedger {
    requests: Table<u64, RequestRecord>,
    signatures: Table<u64, Vec<AccountId>>,
    metadata: Table<u64, PropertyMetadata>,
    request_counter: u64,
    transaction_counter: u64,
    verified: Table<Hash32, bool>,
    trackers: Table<u64, TrackerRecord>,
    tracker_history: Table<u64, Vec<ChainStatusUpdate>>,
    tx_hash_index: Table<Hash32, u64>,
    daily_requests: Table<AccountId, u64>,
    last_reset_day: Table<AccountId, u64>,
    block_request_count: Table<AccountId, u32>,
    block_request_block: Table<AccountId, u64>,
    failed_signature_count: u32,
    failed_signature_window_start: u64,
    locked: bool,
    trades: Table<u64, CrossChainTradeIntent>,
    trade_counter: u64,
    chain_hourly_volume: Table<ChainId, u128>,
    chain_hourly_window_start: Table<ChainId, u64>,
    chain_daily_volume: Table<ChainId, u128>,
    chain_last_reset_day: Table<ChainId, u64>,
    history: Table<AccountId, Vec<BridgeTransaction>>,
}

impl View for RequestLedger {
    type V = LedgerState;

    closed spec fn view(&self) -> LedgerState {
        LedgerState {
            requests: self.requests@,
            signatures: self.signatures@.map_values(|v: Vec<AccountId>| v@),
            metadata: self.metadata@,
            request_counter: self.request_counter,
            transaction_counter: self.transaction_counter,
            verified: self.verified@,
            trackers: self.trackers@,
            tracker_history: self.tracker_history@.map_values(|v: Vec<ChainStatusUpdate>| v@),
            tx_hash_index: self.tx_hash_index@,
            daily_requests: self.daily_requests@,
            last_reset_day: self.last_reset_day@,
            block_request_count: self.block_request_count@,
            block_request_block: self.block_request_block@,
            failed_signature_count: self.failed_signature_count,
            failed_signature_window_start: self.failed_signature_window_start,
            locked: self.locked,
            trades: self.trades@,
            trade_counter: self.trade_counter,
            chain_hourly_volume: self.chain_hourly_volume@,
            chain_hourly_window_start: self.chain_hourly_window_start@,
            chain_daily_volume: self.chain_daily_volume@,
            chain_last_reset_day: self.chain_last_reset_day@,
            history: self.history@.map_values(|v: Vec<BridgeTransaction>| v@),
        }
    }
}

impl RequestLedger {
    /// The tables' invariants.
    pub closed spec fn wf(&self) -> bool {
        &&& self.requests.wf()
        &&& self.signatures.wf()
        &&& self.metadata.wf()
        &&& self.verified.wf()
        &&& self.trackers.wf()
        &&& self.tracker_history.wf()
        &&& self.tx_hash_index.wf()
        &&& self.daily_requests.wf()
        &&& self.last_reset_day.wf()
        &&& self.block_request_count.wf()
        &&& self.block_request_block.wf()
        &&& self.trades.wf()
        &&& self.chain_hourly_volume.wf()
        &&& self.chain_hourly_window_start.wf()
        &&& self.chain_daily_volume.wf()
        &&& self.chain_last_reset_day.wf()
        &&& self.history.wf()
        &&& forall|id: u64| #[trigger] self.requests@.contains_key(id) ==> self.metadata@.contains_key(id)
        &&& forall|id: u64| #[trigger] self.trackers@.contains_key(id) ==> self.trackers@[id].request_id == id
    }

    /// A ledger with no request.
    pub fn new() -> (r: RequestLedger)
        ensures
            r.wf(),
            r@ == empty_ledger(),
    {
        let r = RequestLedger {
            requests: Table::new(),
            signatures: Table::new(),
            metadata: Table::new(),
            request_counter: 0,
            transaction_counter: 0,
            verified: Table::new(),
            trackers: Table::new(),
            tracker_history: Table::new(),
            tx_hash_index: Table::new(),
            daily_requests: Table::new(),
            last_reset_day: Table::new(),
            block_request_count: Table::new(),
            block_request_block: Table::new(),
            failed_signature_count: 0,
            failed_signature_window_start: 0,
            locked: false,
            trades: Table::new(),
            trade_counter: 0,
            chain_hourly_volume: Table::new(),
            chain_hourly_window_start: Table::new(),
            chain_daily_volume: Table::new(),
            chain_last_reset_day: Table::new(),
            history: Table::new(),
        };
        assert(r@.signatures =~= Map::<u64, Seq<AccountId>>::empty());
        assert(r@.tracker_history =~= Map::<u64, Seq<ChainStatusUpdate>>::empty());
        assert(r@.history =~= Map::<AccountId, Seq<BridgeTransaction>>::empty());
        r
    }
}

/// A ledger with no request.
pub open spec fn empty_ledger() -> LedgerState {
    LedgerState {
        requests: Map::empty(),
        signatures: Map::empty(),
        metadata: Map::empty(),
        request_counter: 0,
        transaction_counter: 0,
        verified: Map::empty(),
        trackers: Map::empty(),
        tracker_history: Map::empty(),
        tx_hash_index: Map::empty(),
        daily_requests: Map::empty(),
        last_reset_day: Map::empty(),
        block_request_count: Map::empty(),
        block_request_block: Map::empty(),
        failed_signature_count: 0,
        failed_signature_window_start: 0,
        locked: false,
        trades: Map::empty(),
        trade_counter: 0,
        chain_hourly_volume: Map::empty(),
        chain_hourly_window_start: Map::empty(),
        chain_daily_volume: Map::empty(),
        chain_last_reset_day: Map::empty(),
        history: Map::empty(),
    }
}

/// Milliseconds in a day and in an hour.
pub const DAY_MS: u64 = 86_400_000;

/// Milliseconds in an hour.
pub const HOUR_MS: u64 = 3_600_000;

/// The chain the bridge runs on.
pub const CURRENT_CHAIN_ID: ChainId = 1;

/// The burst counter of `account` after a request at `block`.
pub open spec fn burst_count(l: LedgerState, account: AccountId, block: u64) -> u32 {
    let count = if get_or(l.block_request_block, account, 0u64) == block {
        get_or(l.block_request_count, account, 0u32)
    } else {
        0
    };
    crate::common::sadd32(count, 1)
}

/// The request counters of `account` after a request at `block`.
pub open spec fn burst_counted(l: LedgerState, account: AccountId, block: u64) -> LedgerState {
    LedgerState {
        block_request_block: l.block_request_block.insert(account, block),
        block_request_count: l.block_request_count.insert(account, burst_count(l, account, block)),
        ..l
    }
}

/// Whether a request by `account` at `block` trips the per-block burst threshold.
pub open spec fn burst_trips(s: BridgeState, l: LedgerState, account: AccountId, block: u64) -> bool {
    let threshold = s.suspicious_config.max_requests_per_block_per_account;
    s.suspicious_config.auto_pause_enabled && threshold > 0 && burst_count(l, account, block) >= threshold
}

/// The day a timestamp (in milliseconds) falls on.
pub open spec fn day_of(timestamp: u64) -> u64 {
    timestamp / DAY_MS
}

/// Requests `account` made today, as the limit counts them at `timestamp`.
pub open spec fn requests_today(l: LedgerState, account: AccountId, timestamp: u64) -> u64 {
    if get_or(l.last_reset_day, account, 0u64) < day_of(timestamp) {
        0
    } else {
        get_or(l.daily_requests, account, 0u64)
    }
}

/// The daily counters after the limit looks at `account` at `timestamp`.
pub open spec fn day_rolled(l: LedgerState, account: AccountId, timestamp: u64) -> LedgerState {
    if get_or(l.last_reset_day, account, 0u64) < day_of(timestamp) {
        LedgerState { last_reset_day: l.last_reset_day.insert(account, day_of(timestamp)), ..l }
    } else {
        l
    }
}

/// The request initiated as the next one.
pub open spec fn new_request_record(
    l: LedgerState,
    caller: AccountId,
    block: u64,
    token_id: TokenId,
    destination_chain: ChainId,
    recipient: AccountId,
    required_signatures: u8,
    timeout_blocks: Option<u64>,
) -> RequestRecord {
    RequestRecord {
        request_id: (l.request_counter + 1) as u64,
        token_id,
        source_chain: CURRENT_CHAIN_ID,
        destination_chain,
        sender: caller,
        recipient,
        required_signatures,
        created_at: block,
        expires_at: match timeout_blocks {
            Some(b) => Some((block + b) as u64),
            None => None,
        },
        status: BridgeOperationStatus::Pending,
    }
}

/// The report that a leg is `status` at `block` and `timestamp`, with nothing else.
pub open spec fn plain_update(chain_id: ChainId, status: ChainTxStatus, block: u64, timestamp: u64) -> ChainStatusUpdate {
    ChainStatusUpdate {
        chain_id,
        status,
        tx_hash: None,
        block_number: block,
        timestamp,
        confirmations: 0,
        error_message: None,
    }
}

/// Whether a request past its expiry block is `block` late.
pub open spec fn expired(q: RequestRecord, block: u64) -> bool {
    match q.expires_at {
        Some(e) => block > e,
        None => false,
    }
}

impl PropertyBridge {
    fn track_request_burst(&mut self, account: AccountId, block: u64, timestamp: u64) -> (r: Result<(), BridgeError>)
        requires
            old(self).wf(),
        ensures
            final(self).wf(),
            !old(self)@.suspicious_config.auto_pause_enabled ==> r == Ok::<(), BridgeError>(())
                && final(self)@ == old(self)@ && final(self).ledger() == old(self).ledger(),
            old(self)@.suspicious_config.auto_pause_enabled ==> final(self).ledger() == burst_counted(
                old(self).ledger(),
                account,
                block,
            ),
            old(self)@.suspicious_config.auto_pause_enabled && !burst_trips(old(self)@, old(self).ledger(), account, block)
                ==> r == Ok::<(), BridgeError>(()) && final(self)@ == old(self)@,
            old(self)@.suspicious_config.auto_pause_enabled && burst_trips(old(self)@, old(self).ledger(), account, block)
                ==> r == Err::<(), BridgeError>(BridgeError::OperationPaused) && exists|d: String|
                d@ == burst_note() && final(self)@ == #[trigger] paused_state(
                old(self)@,
                account,
                flags_for(PauseReason::SuspiciousFrequency),
                PauseReason::SuspiciousFrequency,
                Some(d),
                block,
                timestamp,
            ),
    {
        if !self.suspicious_config.auto_pause_enabled {
            return Ok(());
        }
        let last_block = lookup_or(&self.ledger.block_request_block, &account, 0u64);
        let count = if last_block == block {
            lookup_or(&self.ledger.block_request_count, &account, 0u32)
        } else {
            0
        };
        let count = count.saturating_add(1);
        self.ledger.block_request_block.insert(account, block);
        self.ledger.block_request_count.insert(account, count);
        assert(self.ledger@ =~= burst_counted(old(self).ledger(), account, block));
        let threshold = self.suspicious_config.max_requests_per_block_per_account;
        if threshold > 0 && count >= threshold {
            let flags = pause_flags_for_reason(PauseReason::SuspiciousFrequency);
            let note = String::from_str("Auto: per-block request burst");
            proof {
                reveal_strlit("Auto: per-block request burst");
            }
            let ghost d = note;
            self.apply_pause(account, flags, PauseReason::SuspiciousFrequency, Some(note), block, timestamp);
            assert(self@ == paused_state(
                old(self)@,
                account,
                flags_for(PauseReason::SuspiciousFrequency),
                PauseReason::SuspiciousFrequency,
                Some(d),
                block,
                timestamp,
            ));
            return Err(BridgeError::OperationPaused);
        }
        Ok(())
    }

    /// Initiates a transfer of token `token_id` to `recipient` on `destination_chain`,
    /// needing `required_signatures` validator signatures (within the configured range)
    /// and expiring `timeout_blocks` after `block` if given. Refused while new requests
    /// are paused, when the request burst trips the circuit breaker (which then pauses
    /// new requests), for an unsupported chain, and past the daily request limit.
    pub fn initiate_bridge_multisig(
        &mut self,
        caller: AccountId,
        block: u64,
        timestamp: u64,
        token_id: TokenId,
        destination_chain: ChainId,
        recipient: AccountId,
        required_signatures: u8,
        timeout_blocks: Option<u64>,
        metadata: PropertyMetadata,
    ) -> (r: Result<u64, BridgeError>)
        requires
            old(self).wf(),
            old(self).ledger().request_counter < u64::MAX,
            timeout_blocks is Some ==> block + timeout_blocks->0 <= u64::MAX,
            requests_today(old(self).ledger(), caller, timestamp) < u64::MAX,
        ensures
            final(self).wf(),
            ({
                let s = old(self)@;
                let l = old(self).ledger();
                let l1 = if s.suspicious_config.auto_pause_enabled {
                    burst_counted(l, caller, block)
                } else {
                    l
                };
                let l2 = day_rolled(l1, caller, timestamp);
                let q = new_request_record(
                    l,
                    caller,
                    block,
                    token_id,
                    destination_chain,
                    recipient,
                    required_signatures,
                    timeout_blocks,
                );
                if op_paused(s, BridgeOperation::NewRequest) {
                    r == Err::<u64, BridgeError>(BridgeError::OperationPaused) && final(self)@ == s
                        && final(self).ledger() == l
                } else if burst_trips(s, l, caller, block) {
                    r == Err::<u64, BridgeError>(BridgeError::OperationPaused) && final(self).ledger() == l1
                        && final(self)@.pause_flags == crate::bridge::merged(
                        s.pause_flags,
                        flags_for(PauseReason::SuspiciousFrequency),
                    )
                } else if !listed_chain(s.supported_chains, destination_chain) {
                    r == Err::<u64, BridgeError>(BridgeError::InvalidChain) && final(self)@ == s
                        && final(self).ledger() == l1
                } else if required_signatures < s.min_signatures || required_signatures > s.max_signatures {
                    r == Err::<u64, BridgeError>(BridgeError::InsufficientSignatures) && final(self)@ == s
                        && final(self).ledger() == l1
                } else if s.rate_limit_enabled && requests_today(l1, caller, timestamp) >= s.max_requests_per_day {
                    r == Err::<u64, BridgeError>(BridgeError::RateLimitExceeded) && final(self)@ == s
                        && final(self).ledger() == l2
                } else {
                    let l3 = if s.rate_limit_enabled {
                        LedgerState {
                            daily_requests: l2.daily_requests.insert(
                                caller,
                                (requests_today(l1, caller, timestamp) + 1) as u64,
                            ),
                            ..l2
                        }
                    } else {
                        l1
                    };
                    let src = plain_update(CURRENT_CHAIN_ID, ChainTxStatus::Submitted, block, timestamp);
                    let dst = plain_update(destination_chain, ChainTxStatus::NotStarted, 0, timestamp);
                    &&& r == Ok::<u64, BridgeError>(q.request_id)
                    &&& final(self)@ == s
                    &&& final(self).ledger() == LedgerState {
                        request_counter: q.request_id,
                        requests: l3.requests.insert(q.request_id, q),
                        signatures: l3.signatures.insert(q.request_id, Seq::empty()),
                        metadata: l3.metadata.insert(q.request_id, metadata),
                        trackers: l3.trackers.insert(
                            q.request_id,
                            TrackerRecord {
                                request_id: q.request_id,
                                token_id,
                                source_chain: CURRENT_CHAIN_ID,
                                destination_chain,
                                source_status: src,
                                destination_status: dst,
                                overall_status: BridgeOperationStatus::Pending,
                                last_updated: timestamp,
                            },
                        ),
                        tracker_history: l3.tracker_history.insert(q.request_id, seq![src]),
                        ..l3
                    }
                }
            }),
    {
        if self.is_operation_paused(BridgeOperation::NewRequest) {
            return Err(BridgeError::OperationPaused);
        }
        let ghost s0 = self@;
        match self.track_request_burst(caller, block, timestamp) {
            Ok(()) => {},
            Err(e) => return Err(e),
        }
        assert(self@ == s0);
        let found = crate::bridge::contains_chain(&self.config.supported_chains, destination_chain);
        if !found {
            return Err(BridgeError::InvalidChain);
        }
        if required_signatures < self.config.min_signatures_required || required_signatures
            > self.config.max_signatures_required {
            return Err(BridgeError::InsufficientSignatures);
        }
        if self.config.rate_limit_enabled {
            let current_day = timestamp / DAY_MS;
            let last_reset = lookup_or(&self.ledger.last_reset_day, &caller, 0u64);
            let mut daily = lookup_or(&self.ledger.daily_requests, &caller, 0u64);
            if last_reset < current_day {
                daily = 0;
                self.ledger.last_reset_day.insert(caller, current_day);
            }
            if daily >= self.config.max_requests_per_day {
                return Err(BridgeError::RateLimitExceeded);
            }
            self.ledger.daily_requests.insert(caller, daily + 1);
        }
        let ghost l3 = self.ledger@;
        self.ledger.request_counter = self.ledger.request_counter + 1;
        let request_id = self.ledger.request_counter;
        let expires_at = match timeout_blocks {
            Some(b) => Some(block + b),
            None => None,
        };
        let q = RequestRecord {
            request_id,
            token_id,
            source_chain: CURRENT_CHAIN_ID,
            destination_chain,
            sender: caller,
            recipient,
            required_signatures,
            created_at: block,
            expires_at,
            status: BridgeOperationStatus::Pending,
        };
        self.ledger.requests.insert(request_id, q);
        let ghost sig0 = self.ledger.signatures@;
        self.ledger.signatures.insert(request_id, Vec::new());
        assert(self.ledger.signatures@.map_values(|v: Vec<AccountId>| v@) =~= sig0.map_values(
            |v: Vec<AccountId>| v@,
        ).insert(request_id, Seq::empty()));
        let ghost md = metadata;
        self.ledger.metadata.insert(request_id, metadata);
        let src = ChainStatusUpdate {
            chain_id: CURRENT_CHAIN_ID,
            status: ChainTxStatus::Submitted,
            tx_hash: None,
            block_number: block,
            timestamp,
            confirmations: 0,
            error_message: None,
        };
        let dst = ChainStatusUpdate {
            chain_id: destination_chain,
            status: ChainTxStatus::NotStarted,
            tx_hash: None,
            block_number: 0,
            timestamp,
            confirmations: 0,
            error_message: None,
        };
        let mut history: Vec<ChainStatusUpdate> = Vec::new();
        history.push(src.copy());
        let ghost hv = history@;
        let tracker = TrackerRecord {
            request_id,
            token_id,
            source_chain: CURRENT_CHAIN_ID,
            destination_chain,
            source_status: src,
            destination_status: dst,
            overall_status: BridgeOperationStatus::Pending,
            last_updated: timestamp,
        };
        let ghost tv = tracker;
        self.ledger.trackers.insert(request_id, tracker);
        let ghost th0 = self.ledger.tracker_history@;
        self.ledger.tracker_history.insert(request_id, history);
        assert(self.ledger.tracker_history@.map_values(|v: Vec<ChainStatusUpdate>| v@) =~= th0.map_values(
            |v: Vec<ChainStatusUpdate>| v@,
        ).insert(request_id, hv));
        assert(self.ledger@ =~= LedgerState {
            request_counter: request_id,
            requests: l3.requests.insert(request_id, q),
            signatures: l3.signatures.insert(request_id, Seq::empty()),
            metadata: l3.metadata.insert(request_id, md),
            trackers: l3.trackers.insert(request_id, tv),
            tracker_history: l3.tracker_history.insert(request_id, hv),
            ..l3
        });
        Ok(request_id)
    }

    /// A validator signs an unexpired request once. A rejection fails the request (and
    /// counts toward the failed-signature surge); an approval that completes the
    /// required signatures locks it for execution.
    pub fn sign_bridge_request(
        &mut self,
        caller: AccountId,
        block: u64,
        timestamp: u64,
        request_id: u64,
        approve: bool,
    ) -> (r: Result<(), BridgeError>)
        requires
            old(self).wf(),
        ensures
            final(self).wf(),
            ({
                let s = old(self)@;
                let l = old(self).ledger();
                match sign_error(s, l, caller, block, request_id) {
                    Some(e) => r == Err::<(), BridgeError>(e) && final(self)@ == s && final(self).ledger() == l,
                    None => {
                        let l1 = signed(l, request_id, caller, approve);
                        &&& r == Ok::<(), BridgeError>(())
                        &&& if approve || !s.suspicious_config.auto_pause_enabled {
                            final(self)@ == s && final(self).ledger() == l1
                        } else {
                            &&& final(self).ledger() == failure_counted(l1, timestamp)
                            &&& if failure_trips(s, l1, timestamp) {
                                exists|d: String|
                                    d@ == failure_note() && final(self)@ == #[trigger] paused_state(
                                        s,
                                        caller,
                                        flags_for(PauseReason::FailedSignatureSurge),
                                        PauseReason::FailedSignatureSurge,
                                        Some(d),
                                        block,
                                        timestamp,
                                    )
                            } else {
                                final(self)@ == s
                            }
                        }
                    },
                }
            }),
    {
        if self.is_operation_paused(BridgeOperation::Signing) {
            return Err(BridgeError::OperationPaused);
        }
        if !is_listed(&self.validators, caller) {
            return Err(BridgeError::Unauthorized);
        }
        let mut q = match self.ledger.requests.get(&request_id) {
            Some(q) => *q,
            None => return Err(BridgeError::InvalidRequest),
        };
        match q.expires_at {
            Some(e) => {
                if block > e {
                    return Err(BridgeError::RequestExpired);
                }
            },
            None => {},
        }
        let mut sigs: Vec<AccountId> = match self.ledger.signatures.get(&request_id) {
            Some(v) => {
                let c = v.clone();
                assert(c@ =~= v@);
                c
            },
            None => Vec::new(),
        };
        assert(sigs@ == get_or(old(self).ledger().signatures, request_id, Seq::empty()));
        if is_listed(&sigs, caller) {
            return Err(BridgeError::AlreadySigned);
        }
        sigs.push(caller);
        if !approve {
            q.status = BridgeOperationStatus::Failed;
        } else if sigs.len() >= q.required_signatures as usize {
            q.status = BridgeOperationStatus::Locked;
        }
        self.ledger.requests.insert(request_id, q);
        let ghost sv = sigs@;
        let ghost sig0 = self.ledger.signatures@;
        self.ledger.signatures.insert(request_id, sigs);
        assert(self.ledger.signatures@.map_values(|v: Vec<AccountId>| v@) =~= sig0.map_values(
            |v: Vec<AccountId>| v@,
        ).insert(request_id, sv));
        assert(self.ledger@ =~= signed(old(self).ledger(), request_id, caller, approve));
        if !approve {
            self.track_failed_signature(caller, block, timestamp);
        }
        Ok(())
    }

    fn track_failed_signature(&mut self, signer: AccountId, block: u64, timestamp: u64)
        requires
            old(self).wf(),
        ensures
            final(self).wf(),
            !old(self)@.suspicious_config.auto_pause_enabled ==> final(self)@ == old(self)@ && final(self).ledger()
                == old(self).ledger(),
            old(self)@.suspicious_config.auto_pause_enabled ==> final(self).ledger() == failure_counted(
                old(self).ledger(),
                timestamp,
            ),
            old(self)@.suspicious_config.auto_pause_enabled && !failure_trips(old(self)@, old(self).ledger(), timestamp)
                ==> final(self)@ == old(self)@,
            old(self)@.suspicious_config.auto_pause_enabled && failure_trips(old(self)@, old(self).ledger(), timestamp)
                ==> exists|d: String|
                d@ == failure_note() && final(self)@ == #[trigger] paused_state(
                old(self)@,
                signer,
                flags_for(PauseReason::FailedSignatureSurge),
                PauseReason::FailedSignatureSurge,
                Some(d),
                block,
                timestamp,
            ),
    {
        if !self.suspicious_config.auto_pause_enabled {
            return;
        }
        if timestamp.saturating_sub(self.ledger.failed_signature_window_start) >= HOUR_MS {
            self.ledger.failed_signature_window_start = timestamp;
            self.ledger.failed_signature_count = 0;
        }
        self.ledger.failed_signature_count = self.ledger.failed_signature_count.saturating_add(1);
        assert(self.ledger@ =~= failure_counted(old(self).ledger(), timestamp));
        let threshold = self.suspicious_config.max_failed_signatures_per_hour;
        if threshold > 0 && self.ledger.failed_signature_count >= threshold {
            let flags = pause_flags_for_reason(PauseReason::FailedSignatureSurge);
            let note = String::from_str("Auto: failed-signature surge");
            proof {
                reveal_strlit("Auto: failed-signature surge");
            }
            let ghost d = note;
            self.apply_pause(signer, flags, PauseReason::FailedSignatureSurge, Some(note), block, timestamp);
            assert(self@ == paused_state(
                old(self)@,
                signer,
                flags_for(PauseReason::FailedSignatureSurge),
                PauseReason::FailedSignatureSurge,
                Some(d),
                block,
                timestamp,
            ));
        }
    }

    /// A bridge operator executes a locked request with its signatures: the request
    /// completes, the transaction hash (`transaction_hash`, computed for the request by
    /// the host) is recorded as verified, and the tracker moves the source leg to
    /// confirmed and the destination leg to submitted.
    pub fn execute_bridge(
        &mut self,
        caller: AccountId,
        block: u64,
        timestamp: u64,
        request_id: u64,
        transaction_hash: Hash32,
    ) -> (r: Result<(), BridgeError>)
        requires
            old(self).wf(),
            old(self).ledger().transaction_counter < u64::MAX,
            exec_error(old(self)@, old(self).ledger(), caller, request_id) is None ==> gas_usage(
                old(self).ledger().metadata[request_id],
            ) <= u64::MAX,
        ensures
            final(self).wf(),
            final(self)@ == old(self)@,
            ({
                let l = old(self).ledger();
                match exec_error(old(self)@, l, caller, request_id) {
                    Some(e) => r == Err::<(), BridgeError>(e) && final(self).ledger() == l,
                    None => r == Ok::<(), BridgeError>(()) && final(self).ledger() == executed(
                        l,
                        request_id,
                        transaction_hash,
                        block,
                        timestamp,
                    ),
                }
            }),
    {
        if self.ledger.locked {
            return Err(BridgeError::ReentrantCall);
        }
        if self.is_operation_paused(BridgeOperation::Execution) {
            return Err(BridgeError::OperationPaused);
        }
        if !is_listed(&self.bridge_operators, caller) {
            return Err(BridgeError::Unauthorized);
        }
        let mut q = match self.ledger.requests.get(&request_id) {
            Some(q) => *q,
            None => return Err(BridgeError::InvalidRequest),
        };
        if q.status != BridgeOperationStatus::Locked {
            return Err(BridgeError::InvalidRequest);
        }
        let collected = match self.ledger.signatures.get(&request_id) {
            Some(v) => v.len(),
            None => 0,
        };
        if collected < q.required_signatures as usize {
            return Err(BridgeError::InsufficientSignatures);
        }
        let metadata = match self.ledger.metadata.get(&request_id) {
            Some(m) => m.copy(),
            None => {
                assert(false);
                return Err(BridgeError::InvalidRequest);
            },
        };
        let description_bytes = metadata.legal_description.as_str().len();
        let gas_used: u64 = BRIDGE_BASE_GAS + description_bytes as u64 * 100;
        let ghost l0 = old(self).ledger();
        let ghost entry = history_entry(l0, request_id, transaction_hash, timestamp);
        self.ledger.transaction_counter = self.ledger.transaction_counter + 1;
        let transaction = BridgeTransaction {
            transaction_id: self.ledger.transaction_counter,
            token_id: q.token_id,
            source_chain: q.source_chain,
            destination_chain: q.destination_chain,
            sender: q.sender,
            recipient: q.recipient,
            transaction_hash,
            timestamp,
            gas_used,
            status: BridgeOperationStatus::InTransit,
            metadata,
        };
        assert(transaction == entry);
        q.status = BridgeOperationStatus::Completed;
        self.ledger.requests.insert(request_id, q);
        self.ledger.verified.insert(transaction_hash, true);
        assert(self.ledger@ =~= completed_request(l0, request_id, transaction_hash));
        self.advance_cross_chain_status_on_execute(block, timestamp, request_id, q.source_chain, q.destination_chain, transaction_hash);
        let ghost l1 = self.ledger@;
        let mut list = match self.ledger.history.remove(&q.sender) {
            Some(h) => h,
            None => Vec::new(),
        };
        assert(list@ == history_list(l1, q.sender));
        list.push(transaction);
        let ghost lv = list@;
        let ghost h0 = self.ledger.history@;
        self.ledger.history.insert(q.sender, list);
        assert(self.ledger.history@.map_values(|v: Vec<BridgeTransaction>| v@) =~= h0.map_values(
            |v: Vec<BridgeTransaction>| v@,
        ).insert(q.sender, lv));
        assert(lv == history_list(l1, q.sender).push(entry));
        assert(self.ledger@.history =~= l1.history.insert(q.sender, lv));
        assert(self.ledger@ =~= executed(l0, request_id, transaction_hash, block, timestamp));
        Ok(())
    }

    fn advance_cross_chain_status_on_execute(
        &mut self,
        block: u64,
        timestamp: u64,
        request_id: u64,
        source_chain: ChainId,
        destination_chain: ChainId,
        tx_hash: Hash32,
    )
        requires
            old(self).wf(),
        ensures
            final(self).wf(),
            final(self)@ == old(self)@,
            final(self).ledger() == tracker_advanced(
                old(self).ledger(),
                request_id,
                source_chain,
                destination_chain,
                tx_hash,
                block,
                timestamp,
            ),
    {
        let mut tracker = match self.ledger.trackers.get(&request_id) {
            Some(t) => t.copy(),
            None => return,
        };
        let source_update = ChainStatusUpdate {
            chain_id: source_chain,
            status: ChainTxStatus::Confirmed,
            tx_hash: Some(tx_hash),
            block_number: block,
            timestamp,
            confirmations: 1,
            error_message: None,
        };
        let destination_update = ChainStatusUpdate {
            chain_id: destination_chain,
            status: ChainTxStatus::Submitted,
            tx_hash: None,
            block_number: 0,
            timestamp,
            confirmations: 0,
            error_message: None,
        };
        let mut history = match self.ledger.tracker_history.remove(&request_id) {
            Some(h) => h,
            None => Vec::new(),
        };
        let ghost l0 = old(self).ledger();
        assert(history@ == history_of(l0, request_id));
        history.push(source_update.copy());
        history.push(destination_update.copy());
        let ghost hv = history@;
        self.ledger.tracker_history.insert(request_id, history);
        assert(self.ledger@.tracker_history =~= l0.tracker_history.insert(request_id, hv));
        tracker.source_status = source_update;
        tracker.destination_status = destination_update;
        tracker.last_updated = timestamp;
        tracker.overall_status = BridgeOperationStatus::InTransit;
        self.ledger.tx_hash_index.insert(tx_hash, request_id);
        self.ledger.trackers.insert(request_id, tracker);
        assert(self.ledger@ =~= tracker_advanced(l0, request_id, source_chain, destination_chain, tx_hash, block, timestamp));
    }

    /// The admin or an operator reports the status of one leg of a tracked request;
    /// the leg may only move forward (see [`valid_transition`]), and the request's
    /// overall status follows its two legs.
    pub fn update_chain_tx_status(
        &mut self,
        caller: AccountId,
        timestamp: u64,
        request_id: u64,
        chain_id: ChainId,
        status: ChainTxStatus,
        tx_hash: Option<Hash32>,
        block_number: u64,
        confirmations: u32,
        error_message: Option<String>,
    ) -> (r: Result<(), BridgeError>)
        requires
            old(self).wf(),
        ensures
            final(self).wf(),
            final(self)@ == old(self)@,
            ({
                let l = old(self).ledger();
                match chain_update_error(old(self)@, l, caller, request_id, chain_id, status) {
                    Some(e) => r == Err::<(), BridgeError>(e) && final(self).ledger() == l,
                    None => r == Ok::<(), BridgeError>(()) && final(self).ledger() == chain_updated(
                        l,
                        request_id,
                        ChainStatusUpdate {
                            chain_id,
                            status,
                            tx_hash,
                            block_number,
                            timestamp,
                            confirmations,
                            error_message,
                        },
                    ),
                }
            }),
    {
        if caller != self.admin && !is_listed(&self.bridge_operators, caller) {
            return Err(BridgeError::Unauthorized);
        }
        let mut tracker = match self.ledger.trackers.get(&request_id) {
            Some(t) => t.copy(),
            None => return Err(BridgeError::TransactionNotFound),
        };
        if chain_id != tracker.source_chain && chain_id != tracker.destination_chain {
            return Err(BridgeError::InvalidChain);
        }
        let current = if chain_id == tracker.source_chain {
            tracker.source_status.status
        } else {
            tracker.destination_status.status
        };
        if !is_valid_chain_status_transition(current, status) {
            return Err(BridgeError::InvalidStatusTransition);
        }
        let update = ChainStatusUpdate {
            chain_id,
            status,
            tx_hash,
            block_number,
            timestamp,
            confirmations,
            error_message,
        };
        let ghost uv = update;
        let ghost l0 = old(self).ledger();
        let mut history = match self.ledger.tracker_history.remove(&request_id) {
            Some(h) => h,
            None => Vec::new(),
        };
        assert(history@ == history_of(l0, request_id));
        history.push(update.copy());
        let ghost hv = history@;
        self.ledger.tracker_history.insert(request_id, history);
        assert(self.ledger@.tracker_history =~= l0.tracker_history.insert(request_id, hv));
        if chain_id == tracker.source_chain {
            tracker.source_status = update;
        } else {
            tracker.destination_status = update;
        }
        tracker.last_updated = timestamp;
        tracker.overall_status = compute_overall_status(
            tracker.source_status.status,
            tracker.destination_status.status,
        );
        match tx_hash {
            Some(h) => self.ledger.tx_hash_index.insert(h, request_id),
            None => {},
        }
        self.ledger.trackers.insert(request_id, tracker);
        assert(self.ledger@ =~= chain_updated(old(self).ledger(), request_id, uv));
        Ok(())
    }

    /// The request `request_id` as a monitor sees it, if there is one.
    pub fn monitor_bridge_status(&self, request_id: u64) -> (r: Option<BridgeMonitoringInfo>)
        requires
            self.wf(),
        ensures
            !self.ledger().requests.contains_key(request_id) ==> r is None,
            self.ledger().requests.contains_key(request_id) ==> {
                let q = self.ledger().requests[request_id];
                r == Some(
                    BridgeMonitoringInfo {
                        bridge_request_id: q.request_id,
                        token_id: q.token_id,
                        source_chain: q.source_chain,
                        destination_chain: q.destination_chain,
                        status: q.status,
                        created_at: q.created_at,
                        expires_at: q.expires_at,
                        signatures_collected: get_or(
                            self.ledger().signatures,
                            request_id,
                            Seq::empty(),
                        ).len() as u8,
                        signatures_required: q.required_signatures,
                    },
                )
            },
    {
        let q = match self.ledger.requests.get(&request_id) {
            Some(q) => *q,
            None => return None,
        };
        let collected = match self.ledger.signatures.get(&request_id) {
            Some(v) => v.len(),
            None => 0,
        };
        Some(
            BridgeMonitoringInfo {
                bridge_request_id: q.request_id,
                token_id: q.token_id,
                source_chain: q.source_chain,
                destination_chain: q.destination_chain,
                status: q.status,
                created_at: q.created_at,
                expires_at: q.expires_at,
                signatures_collected: collected as u8,
                signatures_required: q.required_signatures,
            },
        )
    }

    /// The transfers `account` has sent that executed, oldest first.
    pub fn get_bridge_history(&self, account: AccountId) -> (r: Vec<BridgeTransaction>)
        requires
            self.wf(),
        ensures
            r@ == history_list(self.ledger(), account),
    {
        let mut out: Vec<BridgeTransaction> = Vec::new();
        match self.ledger.history.get(&account) {
            Some(list) => {
                let mut i: usize = 0;
                while i < list.len()
                    invariant
                        i <= list@.len(),
                        out@ == list@.subrange(0, i as int),
                    decreases list@.len() - i,
                {
                    out.push(list[i].copy());
                    i = i + 1;
                }
                assert(out@ =~= list@);
            },
            None => {},
        }
        out
    }

    /// Whether `transaction_hash` was recorded by an executed request.
    pub fn verify_bridge_transaction(&self, transaction_hash: Hash32, source_chain: ChainId) -> (r: bool)
        requires
            self.wf(),
        ensures
            r == get_or(self.ledger().verified, transaction_hash, false),
    {
        lookup_or(&self.ledger.verified, &transaction_hash, false)
    }

    /// The latest report on leg `chain_id` of request `request_id`, if that leg exists.
    pub fn get_chain_status(&self, request_id: u64, chain_id: ChainId) -> (r: Option<ChainStatusUpdate>)
        requires
            self.wf(),
        ensures
            ({
                let l = self.ledger();
                if !l.trackers.contains_key(request_id) {
                    r is None
                } else {
                    let t = l.trackers[request_id];
                    r == if chain_id == t.source_chain {
                        Some(t.source_status)
                    } else if chain_id == t.destination_chain {
                        Some(t.destination_status)
                    } else {
                        None::<ChainStatusUpdate>
                    }
                }
            }),
    {
        let t = match self.ledger.trackers.get(&request_id) {
            Some(t) => t,
            None => return None,
        };
        if chain_id == t.source_chain {
            Some(t.source_status.copy())
        } else if chain_id == t.destination_chain {
            Some(t.destination_status.copy())
        } else {
            None
        }
    }

    /// The tracker of request `request_id`, if there is one.
    pub fn get_cross_chain_tx_status(&self, request_id: u64) -> (r: Option<TrackerRecord>)
        requires
            self.wf(),
        ensures
            r == if self.ledger().trackers.contains_key(request_id) {
                Some(self.ledger().trackers[request_id])
            } else {
                None::<TrackerRecord>
            },
            r is Some ==> r->0.request_id == request_id,
    {
        match self.ledger.trackers.get(&request_id) {
            Some(t) => Some(t.copy()),
            None => None,
        }
    }

    /// The tracker of the request whose chain transaction hash is `tx_hash`, if any.
    pub fn get_tx_status_by_hash(&self, tx_hash: Hash32) -> (r: Option<TrackerRecord>)
        requires
            self.wf(),
        ensures
            ({
                let l = self.ledger();
                r == if l.tx_hash_index.contains_key(tx_hash) && l.trackers.contains_key(
                    l.tx_hash_index[tx_hash],
                ) {
                    Some(l.trackers[l.tx_hash_index[tx_hash]])
                } else {
                    None::<TrackerRecord>
                }
            }),
            r is Some ==> r->0.request_id == self.ledger().tx_hash_index[tx_hash],
    {
        let id = match self.ledger.tx_hash_index.get(&tx_hash) {
            Some(id) => *id,
            None => return None,
        };
        self.get_cross_chain_tx_status(id)
    }
}

/// A request's tracker is filed under the request's own id.
pub proof fn lemma_tracker_keyed_by_request(b: &PropertyBridge, request_id: u64)
    requires
        b.wf(),
        b.ledger().trackers.contains_key(request_id),
    ensures
        b.ledger().trackers[request_id].request_id == request_id,
{
}

/// The signatures request `request_id` holds.
pub open spec fn sigs_of(l: LedgerState, request_id: u64) -> Seq<AccountId> {
    get_or(l.signatures, request_id, Seq::empty())
}

/// Why `caller`'s signature on request `request_id` at `block` is refused, if it is.
pub open spec fn sign_error(s: BridgeState, l: LedgerState, caller: AccountId, block: u64, request_id: u64) -> Option<
    BridgeError,
> {
    if op_paused(s, BridgeOperation::Signing) {
        Some(BridgeError::OperationPaused)
    } else if !listed(s.validators, caller) {
        Some(BridgeError::Unauthorized)
    } else if !l.requests.contains_key(request_id) {
        Some(BridgeError::InvalidRequest)
    } else if expired(l.requests[request_id], block) {
        Some(BridgeError::RequestExpired)
    } else if listed(sigs_of(l, request_id), caller) {
        Some(BridgeError::AlreadySigned)
    } else {
        None
    }
}

/// The ledger after `caller` signs request `request_id`: the signature is added; a
/// rejection fails the request, and an approval that reaches the required count locks it.
pub open spec fn signed(l: LedgerState, request_id: u64, caller: AccountId, approve: bool) -> LedgerState {
    let q = l.requests[request_id];
    let sigs2 = sigs_of(l, request_id).push(caller);
    let status = if !approve {
        BridgeOperationStatus::Failed
    } else if sigs2.len() >= q.required_signatures {
        BridgeOperationStatus::Locked
    } else {
        q.status
    };
    LedgerState {
        requests: l.requests.insert(request_id, RequestRecord { status, ..q }),
        signatures: l.signatures.insert(request_id, sigs2),
        ..l
    }
}

/// The failed-signature counters after one more rejection at `timestamp` (an hour-old
/// window restarts).
pub open spec fn failure_counted(l: LedgerState, timestamp: u64) -> LedgerState {
    let restart = crate::common::ssub64(timestamp, l.failed_signature_window_start) >= HOUR_MS;
    let base: u32 = if restart {
        0
    } else {
        l.failed_signature_count
    };
    LedgerState {
        failed_signature_window_start: if restart {
            timestamp
        } else {
            l.failed_signature_window_start
        },
        failed_signature_count: crate::common::sadd32(base, 1),
        ..l
    }
}

/// Whether one more rejection at `timestamp` trips the failed-signature breaker.
pub open spec fn failure_trips(s: BridgeState, l: LedgerState, timestamp: u64) -> bool {
    let threshold = s.suspicious_config.max_failed_signatures_per_hour;
    threshold > 0 && failure_counted(l, timestamp).failed_signature_count >= threshold
}

/// The note the breaker records when rejections surge.
pub open spec fn failure_note() -> Seq<char> {
    "Auto: failed-signature surge"@
}

/// Why `caller`'s execution of request `request_id` is refused, if it is.
pub open spec fn exec_error(s: BridgeState, l: LedgerState, caller: AccountId, request_id: u64) -> Option<BridgeError> {
    if l.locked {
        Some(BridgeError::ReentrantCall)
    } else if op_paused(s, BridgeOperation::Execution) {
        Some(BridgeError::OperationPaused)
    } else if !listed(s.operators, caller) {
        Some(BridgeError::Unauthorized)
    } else if !l.requests.contains_key(request_id) {
        Some(BridgeError::InvalidRequest)
    } else if l.requests[request_id].status != BridgeOperationStatus::Locked {
        Some(BridgeError::InvalidRequest)
    } else if sigs_of(l, request_id).len() < l.requests[request_id].required_signatures {
        Some(BridgeError::InsufficientSignatures)
    } else {
        None
    }
}

/// The ledger once request `request_id` completes with `tx_hash` recorded as verified.
pub open spec fn completed_request(l: LedgerState, request_id: u64, tx_hash: Hash32) -> LedgerState {
    LedgerState {
        transaction_counter: (l.transaction_counter + 1) as u64,
        requests: l.requests.insert(
            request_id,
            RequestRecord { status: BridgeOperationStatus::Completed, ..l.requests[request_id] },
        ),
        verified: l.verified.insert(tx_hash, true),
        ..l
    }
}

/// The tracker of request `request_id` once it executes: the source leg is confirmed
/// with `tx_hash`, the destination leg submitted, both reports join the history, and
/// the hash points to the request. Nothing changes when the request has no tracker.
pub open spec fn tracker_advanced(
    l: LedgerState,
    request_id: u64,
    source_chain: ChainId,
    destination_chain: ChainId,
    tx_hash: Hash32,
    block: u64,
    timestamp: u64,
) -> LedgerState {
    if !l.trackers.contains_key(request_id) {
        l
    } else {
        let src = ChainStatusUpdate {
            chain_id: source_chain,
            status: ChainTxStatus::Confirmed,
            tx_hash: Some(tx_hash),
            block_number: block,
            timestamp,
            confirmations: 1,
            error_message: None,
        };
        let dst = ChainStatusUpdate {
            chain_id: destination_chain,
            status: ChainTxStatus::Submitted,
            tx_hash: None,
            block_number: 0,
            timestamp,
            confirmations: 0,
            error_message: None,
        };
        LedgerState {
            trackers: l.trackers.insert(
                request_id,
                TrackerRecord {
                    source_status: src,
                    destination_status: dst,
                    last_updated: timestamp,
                    overall_status: BridgeOperationStatus::InTransit,
                    ..l.trackers[request_id]
                },
            ),
            tracker_history: l.tracker_history.insert(request_id, history_of(l, request_id).push(src).push(dst)),
            tx_hash_index: l.tx_hash_index.insert(tx_hash, request_id),
            ..l
        }
    }
}

/// The gas a transfer carrying `m` is recorded to use: a base amount and 100 per
/// byte of the legal description (a length that fits in `usize`).
pub open spec fn gas_usage(m: PropertyMetadata) -> int {
    BRIDGE_BASE_GAS + (vstd::utf8::encode_utf8(m.legal_description@).len() as usize) * 100
}

/// The transfers recorded for `account` (none when it has no history).
pub open spec fn history_list(l: LedgerState, account: AccountId) -> Seq<BridgeTransaction> {
    if l.history.contains_key(account) {
        l.history[account]
    } else {
        Seq::empty()
    }
}

/// The record that request `request_id` executes with `tx_hash` at `timestamp`, as the
/// next transaction.
pub open spec fn history_entry(l: LedgerState, request_id: u64, tx_hash: Hash32, timestamp: u64) -> BridgeTransaction {
    let q = l.requests[request_id];
    BridgeTransaction {
        transaction_id: (l.transaction_counter + 1) as u64,
        token_id: q.token_id,
        source_chain: q.source_chain,
        destination_chain: q.destination_chain,
        sender: q.sender,
        recipient: q.recipient,
        transaction_hash: tx_hash,
        timestamp,
        gas_used: gas_usage(l.metadata[request_id]) as u64,
        status: BridgeOperationStatus::InTransit,
        metadata: l.metadata[request_id],
    }
}

/// The ledger once request `request_id` executes with `tx_hash` at `block` and
/// `timestamp`: the request completes, its tracker advances, and the transfer joins
/// the sender's history.
pub open spec fn executed(l: LedgerState, request_id: u64, tx_hash: Hash32, block: u64, timestamp: u64) -> LedgerState {
    let q = l.requests[request_id];
    let t = tracker_advanced(
        completed_request(l, request_id, tx_hash),
        request_id,
        q.source_chain,
        q.destination_chain,
        tx_hash,
        block,
        timestamp,
    );
    LedgerState {
        history: t.history.insert(q.sender, history_list(t, q.sender).push(history_entry(l, request_id, tx_hash, timestamp))),
        ..t
    }
}

/// Why a report on leg `chain_id` of request `request_id` is refused, if it is.
pub open spec fn chain_update_error(
    s: BridgeState,
    l: LedgerState,
    caller: AccountId,
    request_id: u64,
    chain_id: ChainId,
    status: ChainTxStatus,
) -> Option<BridgeError> {
    if caller != s.admin && !listed(s.operators, caller) {
        Some(BridgeError::Unauthorized)
    } else if !l.trackers.contains_key(request_id) {
        Some(BridgeError::TransactionNotFound)
    } else {
        let t = l.trackers[request_id];
        if chain_id != t.source_chain && chain_id != t.destination_chain {
            Some(BridgeError::InvalidChain)
        } else {
            let current = if chain_id == t.source_chain {
                t.source_status.status
            } else {
                t.destination_status.status
            };
            if !valid_transition(current, status) {
                Some(BridgeError::InvalidStatusTransition)
            } else {
                None
            }
        }
    }
}

/// The report history of request `request_id` (empty when it has none).
pub open spec fn history_of(l: LedgerState, request_id: u64) -> Seq<ChainStatusUpdate> {
    get_or(l.tracker_history, request_id, Seq::empty())
}

/// The ledger after report `u` on one leg of request `request_id`: the leg takes the
/// report, the report joins the history, the overall status follows the two legs and
/// the report's hash points to the request.
pub open spec fn chain_updated(l: LedgerState, request_id: u64, u: ChainStatusUpdate) -> LedgerState {
    let t = l.trackers[request_id];
    let t1 = if u.chain_id == t.source_chain {
        TrackerRecord { source_status: u, ..t }
    } else {
        TrackerRecord { destination_status: u, ..t }
    };
    let t2 = TrackerRecord {
        last_updated: u.timestamp,
        overall_status: overall_status(t1.source_status.status, t1.destination_status.status),
        ..t1
    };
    LedgerState {
        trackers: l.trackers.insert(request_id, t2),
        tracker_history: l.tracker_history.insert(request_id, history_of(l, request_id).push(u)),
        tx_hash_index: match u.tx_hash {
            Some(h) => l.tx_hash_index.insert(h, request_id),
            None => l.tx_hash_index,
        },
        ..l
    }
}

/// The note the circuit breaker records when a request burst trips it.
pub open spec fn burst_note() -> Seq<char> {
    "Auto: per-block request burst"@
}

/// Whether every completed request in `l` holds at least the signatures it required.
pub open spec fn threshold_kept(l: LedgerState) -> bool {
    forall|id: u64|
        #![trigger l.requests[id]]
        l.requests.contains_key(id) && l.requests[id].status == BridgeOperationStatus::Completed ==> sigs_of(
            l,
            id,
        ).len() >= l.requests[id].required_signatures
}

/// A request never executes short of its signatures: an execution that goes ahead finds
/// at least the required number, and afterwards every completed request still holds
/// at least the signatures it required.
pub proof fn lemma_execution_needs_signatures(
    s: BridgeState,
    l: LedgerState,
    caller: AccountId,
    request_id: u64,
    tx_hash: Hash32,
    block: u64,
    timestamp: u64,
)
    requires
        threshold_kept(l),
        exec_error(s, l, caller, request_id) is None,
    ensures
        sigs_of(l, request_id).len() >= l.requests[request_id].required_signatures,
        threshold_kept(executed(l, request_id, tx_hash, block, timestamp)),
{
    let l2 = executed(l, request_id, tx_hash, block, timestamp);
    assert forall|id: u64|
        #![trigger l2.requests[id]]
        l2.requests.contains_key(id) && l2.requests[id].status == BridgeOperationStatus::Completed implies sigs_of(
            l2,
            id,
        ).len() >= l2.requests[id].required_signatures by {
        if id != request_id {
            assert(l.requests[id] == l2.requests[id]);
        }
    }
}

/// Signing keeps every completed request above its threshold: signatures are only
/// added, and the counters a rejection moves touch no request.
pub proof fn lemma_signing_keeps_threshold(
    s: BridgeState,
    l: LedgerState,
    caller: AccountId,
    block: u64,
    request_id: u64,
    approve: bool,
    timestamp: u64,
)
    requires
        threshold_kept(l),
        sign_error(s, l, caller, block, request_id) is None,
    ensures
        threshold_kept(signed(l, request_id, caller, approve)),
        threshold_kept(failure_counted(signed(l, request_id, caller, approve), timestamp)),
{
    let l2 = signed(l, request_id, caller, approve);
    assert forall|id: u64|
        #![trigger l2.requests[id]]
        l2.requests.contains_key(id) && l2.requests[id].status == BridgeOperationStatus::Completed implies sigs_of(
            l2,
            id,
        ).len() >= l2.requests[id].required_signatures by {
        if id != request_id {
            assert(l.requests[id] == l2.requests[id]);
        }
    }
    let l3 = failure_counted(l2, timestamp);
    assert forall|id: u64|
        #![trigger l3.requests[id]]
        l3.requests.contains_key(id) && l3.requests[id].status == BridgeOperationStatus::Completed implies sigs_of(
            l3,
            id,
        ).len() >= l3.requests[id].required_signatures by {
        assert(l2.requests[id] == l3.requests[id]);
    }
}

/// A new request starts pending with no signature, which keeps every completed request
/// above its threshold.
pub proof fn lemma_new_request_keeps_threshold(l: LedgerState, q: RequestRecord)
    requires
        threshold_kept(l),
        q.status == BridgeOperationStatus::Pending,
    ensures
        threshold_kept(
            LedgerState {
                requests: l.requests.insert(q.request_id, q),
                signatures: l.signatures.insert(q.request_id, Seq::empty()),
                ..l
            },
        ),
{
    let l2 = LedgerState {
        requests: l.requests.insert(q.request_id, q),
        signatures: l.signatures.insert(q.request_id, Seq::empty()),
        ..l
    };
    assert forall|id: u64|
        #![trigger l2.requests[id]]
        l2.requests.contains_key(id) && l2.requests[id].status == BridgeOperationStatus::Completed implies sigs_of(
            l2,
            id,
        ).len() >= l2.requests[id].required_signatures by {
        if id != q.request_id {
            assert(l.requests[id] == l2.requests[id]);
        }
    }
}

/// A validator signs a request once: after its signature is recorded, signing the same
/// request again is refused, with `AlreadySigned` unless signing is paused, the
/// validator was removed or the request has expired in the meantime.
pub proof fn lemma_no_double_signature(
    s: BridgeState,
    l: LedgerState,
    caller: AccountId,
    block: u64,
    request_id: u64,
    approve: bool,
    later: BridgeState,
    later_block: u64,
)
    requires
        sign_error(s, l, caller, block, request_id) is None,
    ensures
        sign_error(later, signed(l, request_id, caller, approve), caller, later_block, request_id) is Some,
        !op_paused(later, BridgeOperation::Signing) && listed(later.validators, caller) && !expired(
            l.requests[request_id],
            later_block,
        ) ==> sign_error(later, signed(l, request_id, caller, approve), caller, later_block, request_id) == Some(
            BridgeError::AlreadySigned,
        ),
{
    let sigs2 = sigs_of(l, request_id).push(caller);
    assert(sigs2[sigs2.len() - 1] == caller);
    assert(listed(sigs2, caller));
}

/// A request executes once: after it completes, executing it again is refused.
pub proof fn lemma_no_double_execution(
    s: BridgeState,
    l: LedgerState,
    caller: AccountId,
    request_id: u64,
    tx_hash: Hash32,
    block: u64,
    timestamp: u64,
    later: BridgeState,
    later_caller: AccountId,
)
    requires
        exec_error(s, l, caller, request_id) is None,
    ensures
        exec_error(later, executed(l, request_id, tx_hash, block, timestamp), later_caller, request_id) is Some,
{
}

/// A signature on an expired request is refused with `RequestExpired` once signing is
/// open, the signer is a validator and the request exists.
pub proof fn lemma_expired_request_rejects_signatures(
    s: BridgeState,
    l: LedgerState,
    caller: AccountId,
    block: u64,
    request_id: u64,
)
    requires
        !op_paused(s, BridgeOperation::Signing),
        listed(s.validators, caller),
        l.requests.contains_key(request_id),
        expired(l.requests[request_id], block),
    ensures
        sign_error(s, l, caller, block, request_id) == Some(BridgeError::RequestExpired),
{
}

} // verus!
