//! The property bridge: multi-signature requests that move property tokens to other
//! chains, per-chain transaction tracking, rate limits, and a circuit breaker that
//! guardians trip and only the admin resets.
use vstd::prelude::*;
use vstd::string::StringExecFns;

pub mod errors;
pub mod requests;

use crate::text::{append_decimal, decimal};
use crate::common::{
    add_once, get_or, is_listed, listed, remove_all, rotation_request, sadd32, with_once,
    without, AccountId, KeyRotationRequest, Table, KEY_ROTATION_EXPIRY_BLOCKS,
};

verus! {

/// Identifier of a chain.
pub type ChainId = u64;

/// Identifier of a property token.
pub type TokenId = u64;

/// Why a bridge operation was refused.
#[derive(Clone, Copy, Debug, PartialEq, Eq, Structural)]
pub enum BridgeError {
    Unauthorized,
    TokenNotFound,
    InvalidChain,
    BridgeNotSupported,
    InsufficientSignatures,
    RequestExpired,
    AlreadySigned,
    InvalidRequest,
    BridgePaused,
    InvalidMetadata,
    DuplicateRequest,
    GasLimitExceeded,
    RateLimitExceeded,
    ReentrantCall,
    OperationPaused,
    NotGuardian,
    TransactionNotFound,
    InvalidStatusTransition,
}

/// Where one chain's leg of a bridge transfer stands.
#[derive(Clone, Copy, Debug, PartialEq, Eq, Structural)]
pub enum ChainTxStatus {
    NotStarted,
    Submitted,
    Confirming,
    Confirmed,
    Failed,
}

/// Where a bridge request stands.
#[derive(Clone, Copy, Debug, PartialEq, Eq, Structural)]
pub enum BridgeOperationStatus {
    Pending,
    Locked,
    InTransit,
    Completed,
    Failed,
}

/// The classes of bridge operations a pause can stop.
#[derive(Clone, Copy, Debug, PartialEq, Eq, Structural)]
pub enum BridgeOperation {
    NewRequest,
    Signing,
    Execution,
    CrossChainTrade,
}

/// Why a pause was triggered.
#[derive(Clone, Copy, Debug, PartialEq, Eq, Structural)]
pub enum PauseReason {
    ManualAdmin,
    GuardianTrigger,
    SuspiciousFrequency,
    SuspiciousVolume,
    FailedSignatureSurge,
    Custom,
}

/// Which operation classes are paused; `all_operations` stops everything.
#[derive(Clone, Copy, Debug, PartialEq, Eq, Structural)]
pub struct PauseFlags {
    pub all_operations: bool,
    pub new_requests: bool,
    pub signing: bool,
    pub execution: bool,
    pub cross_chain_trades: bool,
}

impl PauseFlags {
    /// No flag set.
    pub fn none() -> (r: PauseFlags)
        ensures
            r == no_flags(),
    {
        PauseFlags {
            all_operations: false,
            new_requests: false,
            signing: false,
            execution: false,
            cross_chain_trades: false,
        }
    }

    /// Every flag set.
    pub fn all() -> (r: PauseFlags)
        ensures
            r == all_flags(),
    {
        PauseFlags {
            all_operations: true,
            new_requests: true,
            signing: true,
            execution: true,
            cross_chain_trades: true,
        }
    }
}

/// No flag set.
pub open spec fn no_flags() -> PauseFlags {
    PauseFlags {
        all_operations: false,
        new_requests: false,
        signing: false,
        execution: false,
        cross_chain_trades: false,
    }
}

/// Every flag set.
pub open spec fn all_flags() -> PauseFlags {
    PauseFlags {
        all_operations: true,
        new_requests: true,
        signing: true,
        execution: true,
        cross_chain_trades: true,
    }
}

/// Whether any flag is set.
pub open spec fn any_flag(f: PauseFlags) -> bool {
    f.all_operations || f.new_requests || f.signing || f.execution || f.cross_chain_trades
}

/// The flags of `current` with those of `added` set as well.
pub open spec fn merged(current: PauseFlags, added: PauseFlags) -> PauseFlags {
    PauseFlags {
        all_operations: current.all_operations || added.all_operations,
        new_requests: current.new_requests || added.new_requests,
        signing: current.signing || added.signing,
        execution: current.execution || added.execution,
        cross_chain_trades: current.cross_chain_trades || added.cross_chain_trades,
    }
}

/// The flags of `current` with those of `cleared` cleared.
pub open spec fn cleared(current: PauseFlags, cleared: PauseFlags) -> PauseFlags {
    PauseFlags {
        all_operations: current.all_operations && !cleared.all_operations,
        new_requests: current.new_requests && !cleared.new_requests,
        signing: current.signing && !cleared.signing,
        execution: current.execution && !cleared.execution,
        cross_chain_trades: current.cross_chain_trades && !cleared.cross_chain_trades,
    }
}

/// The flags an incident of kind `reason` sets: a request burst stops new requests,
/// a volume spike cross-chain trades, a failed-signature surge signing, anything else
/// every operation.
pub open spec fn flags_for(reason: PauseReason) -> PauseFlags {
    match reason {
        PauseReason::SuspiciousFrequency => PauseFlags { new_requests: true, ..no_flags() },
        PauseReason::SuspiciousVolume => PauseFlags { cross_chain_trades: true, ..no_flags() },
        PauseReason::FailedSignatureSurge => PauseFlags { signing: true, ..no_flags() },
        _ => PauseFlags { all_operations: true, ..no_flags() },
    }
}

/// The flags an incident of kind `reason` sets.
pub fn pause_flags_for_reason(reason: PauseReason) -> (r: PauseFlags)
    ensures
        r == flags_for(reason),
{
    let mut flags = PauseFlags::none();
    match reason {
        PauseReason::SuspiciousFrequency => flags.new_requests = true,
        PauseReason::SuspiciousVolume => flags.cross_chain_trades = true,
        PauseReason::FailedSignatureSurge => flags.signing = true,
        _ => flags.all_operations = true,
    }
    flags
}

/// Whether a chain leg may move from `from` to `to`: forward only, with a confirmed or
/// failed leg staying where it is.
pub open spec fn valid_transition(from: ChainTxStatus, to: ChainTxStatus) -> bool {
    match from {
        ChainTxStatus::NotStarted => to == ChainTxStatus::Submitted || to == ChainTxStatus::Failed,
        ChainTxStatus::Submitted => to != ChainTxStatus::NotStarted,
        ChainTxStatus::Confirming => to == ChainTxStatus::Confirming || to == ChainTxStatus::Confirmed
            || to == ChainTxStatus::Failed,
        ChainTxStatus::Confirmed => to == ChainTxStatus::Confirmed,
        ChainTxStatus::Failed => to == ChainTxStatus::Failed,
    }
}

/// Whether a chain leg may move from `from` to `to` (see [`valid_transition`]).
pub fn is_valid_chain_status_transition(from: ChainTxStatus, to: ChainTxStatus) -> (r: bool)
    ensures
        r == valid_transition(from, to),
{
    match from {
        ChainTxStatus::NotStarted => to == ChainTxStatus::Submitted || to == ChainTxStatus::Failed,
        ChainTxStatus::Submitted => to != ChainTxStatus::NotStarted,
        ChainTxStatus::Confirming => to == ChainTxStatus::Confirming || to == ChainTxStatus::Confirmed
            || to == ChainTxStatus::Failed,
        ChainTxStatus::Confirmed => to == ChainTxStatus::Confirmed,
        ChainTxStatus::Failed => to == ChainTxStatus::Failed,
    }
}

/// A request's status from its two legs: failed if either failed, completed when both
/// are confirmed, pending while the source is submitted or confirming and the
/// destination has not started, in transit otherwise.
pub open spec fn overall_status(source: ChainTxStatus, destination: ChainTxStatus) -> BridgeOperationStatus {
    if source == ChainTxStatus::Failed || destination == ChainTxStatus::Failed {
        BridgeOperationStatus::Failed
    } else if source == ChainTxStatus::Confirmed && destination == ChainTxStatus::Confirmed {
        BridgeOperationStatus::Completed
    } else if source == ChainTxStatus::Confirmed {
        BridgeOperationStatus::InTransit
    } else if (source == ChainTxStatus::Submitted || source == ChainTxStatus::Confirming)
        && destination == ChainTxStatus::NotStarted {
        BridgeOperationStatus::Pending
    } else {
        BridgeOperationStatus::InTransit
    }
}

/// A request's status from its two legs (see [`overall_status`]).
pub fn compute_overall_status(source: ChainTxStatus, destination: ChainTxStatus) -> (r: BridgeOperationStatus)
    ensures
        r == overall_status(source, destination),
{
    if source == ChainTxStatus::Failed || destination == ChainTxStatus::Failed {
        BridgeOperationStatus::Failed
    } else if source == ChainTxStatus::Confirmed && destination == ChainTxStatus::Confirmed {
        BridgeOperationStatus::Completed
    } else if source == ChainTxStatus::Confirmed {
        BridgeOperationStatus::InTransit
    } else if (source == ChainTxStatus::Submitted || source == ChainTxStatus::Confirming)
        && destination == ChainTxStatus::NotStarted {
        BridgeOperationStatus::Pending
    } else {
        BridgeOperationStatus::InTransit
    }
}

/// One pause or unpause, as the audit log keeps it.
pub struct PauseAuditEntry {
    pub triggered_by: AccountId,
    pub paused: bool,
    pub flags_after: PauseFlags,
    pub reason: PauseReason,
    pub detail: Option<String>,
    pub block_number: u64,
    pub timestamp: u64,
}

/// The thresholds that trip the circuit breaker on their own.
#[derive(Clone, Copy, Debug, PartialEq, Eq, Structural)]
pub struct SuspiciousActivityConfig {
    pub auto_pause_enabled: bool,
    pub max_requests_per_block_per_account: u32,
    pub max_volume_per_hour_per_chain: u128,
    pub max_failed_signatures_per_hour: u32,
}

impl SuspiciousActivityConfig {
    /// The thresholds a new bridge starts with.
    pub fn default_config() -> (r: SuspiciousActivityConfig)
        ensures
            r == default_suspicious_config(),
    {
        SuspiciousActivityConfig {
            auto_pause_enabled: true,
            max_requests_per_block_per_account: 5,
            max_volume_per_hour_per_chain: 1_000_000_000_000_000_000_000,
            max_failed_signatures_per_hour: 10,
        }
    }
}

/// The thresholds a new bridge starts with.
pub open spec fn default_suspicious_config() -> SuspiciousActivityConfig {
    SuspiciousActivityConfig {
        auto_pause_enabled: true,
        max_requests_per_block_per_account: 5,
        max_volume_per_hour_per_chain: 1_000_000_000_000_000_000_000,
        max_failed_signatures_per_hour: 10,
    }
}

/// The bridge's settings.
pub struct BridgeConfig {
    pub supported_chains: Vec<ChainId>,
    pub min_signatures_required: u8,
    pub max_signatures_required: u8,
    pub default_timeout_blocks: u64,
    pub gas_limit_per_bridge: u64,
    pub emergency_pause: bool,
    pub metadata_preservation: bool,
    pub rate_limit_enabled: bool,
    pub max_requests_per_day: u64,
    pub max_value_per_day: u128,
}

/// What the bridge knows of a chain.
pub struct ChainBridgeInfo {
    pub chain_id: ChainId,
    pub chain_name: String,
    pub bridge_contract_address: Option<AccountId>,
    pub is_active: bool,
    pub gas_multiplier: u32,
    pub confirmation_blocks: u32,
    pub supported_tokens: Vec<TokenId>,
    pub chain_daily_limit: u128,
}

/// Gas of a bridge transfer before the chain's multiplier.
pub const BRIDGE_BASE_GAS: u64 = 100_000;

/// Gas multiplier, in percent, of a chain the bridge starts with.
pub const DEFAULT_GAS_MULTIPLIER: u32 = 100;

/// Confirmation depth of a chain the bridge starts with.
pub const DEFAULT_CONFIRMATION_BLOCKS: u32 = 12;

/// Daily volume limit of a chain the bridge starts with.
pub const DEFAULT_CHAIN_DAILY_LIMIT: u128 = 10_000_000_000_000_000_000;

/// Audit entries kept; the oldest is dropped beyond that.
pub const PAUSE_AUDIT_LOG_LIMIT: usize = 256;

/// The name the bridge gives a chain it starts with: `Chain-` and the chain id.
pub open spec fn default_chain_name(chain_id: u64) -> Seq<char> {
    seq!['C', 'h', 'a', 'i', 'n', '-'] + decimal(chain_id as nat)
}

/// The name the bridge gives a chain it starts with.
pub fn chain_name_for(chain_id: u64) -> (r: String)
    ensures
        r@ == default_chain_name(chain_id),
{
    let mut s = String::from_str("Chain-");
    proof {
        reveal_strlit("Chain-");
    }
    append_decimal(&mut s, chain_id as u128);
    s
}

/// The abstract state of the bridge (without its requests, see [`requests`]).
pub struct BridgeState {
    pub admin: AccountId,
    pub supported_chains: Seq<ChainId>,
    pub min_signatures: u8,
    pub max_signatures: u8,
    pub default_timeout_blocks: u64,
    pub gas_limit_per_bridge: u64,
    pub emergency_pause: bool,
    pub metadata_preservation: bool,
    pub rate_limit_enabled: bool,
    pub max_requests_per_day: u64,
    pub max_value_per_day: u128,
    pub chain_info: Map<ChainId, ChainBridgeInfo>,
    pub operators: Seq<AccountId>,
    pub validators: Seq<AccountId>,
    pub guardians: Seq<AccountId>,
    pub pause_flags: PauseFlags,
    pub pause_audit_log: Seq<PauseAuditEntry>,
    pub suspicious_config: SuspiciousActivityConfig,
    pub pending_admin_rotation: Option<KeyRotationRequest>,
    /// The compressed public key each operator registered for signed approvals.
    pub operator_keys: Map<AccountId, [u8; 33]>,
}

/// The bridge contract.
pub struct PropertyBridge {
    config: BridgeConfig,
    chain_info: Table<ChainId, ChainBridgeInfo>,
    bridge_operators: Vec<AccountId>,
    validators: Vec<AccountId>,
    guardians: Vec<AccountId>,
    admin: AccountId,
    pending_admin_rotation: Option<KeyRotationRequest>,
    pause_flags: PauseFlags,
    pause_audit_log: Vec<PauseAuditEntry>,
    suspicious_config: SuspiciousActivityConfig,
    ledger: crate::bridge::requests::RequestLedger,
    operator_public_keys: Table<AccountId, [u8; 33]>,
}

impl View for PropertyBridge {
    type V = BridgeState;

    closed spec fn view(&self) -> BridgeState {
        BridgeState {
            admin: self.admin,
            supported_chains: self.config.supported_chains@,
            min_signatures: self.config.min_signatures_required,
            max_signatures: self.config.max_signatures_required,
            default_timeout_blocks: self.config.default_timeout_blocks,
            gas_limit_per_bridge: self.config.gas_limit_per_bridge,
            emergency_pause: self.config.emergency_pause,
            metadata_preservation: self.config.metadata_preservation,
            rate_limit_enabled: self.config.rate_limit_enabled,
            max_requests_per_day: self.config.max_requests_per_day,
            max_value_per_day: self.config.max_value_per_day,
            chain_info: self.chain_info@,
            operators: self.bridge_operators@,
            validators: self.validators@,
            guardians: self.guardians@,
            pause_flags: self.pause_flags,
            pause_audit_log: self.pause_audit_log@,
            suspicious_config: self.suspicious_config,
            pending_admin_rotation: self.pending_admin_rotation,
            operator_keys: self.operator_public_keys@,
        }
    }
}

/// Whether operations of class `op` are stopped: by their own flag, by the master
/// flag, or by the configuration's emergency switch.
pub open spec fn op_paused(s: BridgeState, op: BridgeOperation) -> bool {
    s.emergency_pause || s.pause_flags.all_operations || match op {
        BridgeOperation::NewRequest => s.pause_flags.new_requests,
        BridgeOperation::Signing => s.pause_flags.signing,
        BridgeOperation::Execution => s.pause_flags.execution,
        BridgeOperation::CrossChainTrade => s.pause_flags.cross_chain_trades,
    }
}

/// `log` with `e` appended, dropping the oldest entry once the limit is reached.
pub open spec fn logged(log: Seq<PauseAuditEntry>, e: PauseAuditEntry) -> Seq<PauseAuditEntry> {
    if log.len() >= PAUSE_AUDIT_LOG_LIMIT {
        log.subrange(1, log.len() as int).push(e)
    } else {
        log.push(e)
    }
}

/// The state after `by` pauses `flags` at `block` and `timestamp`.
pub open spec fn paused_state(
    s: BridgeState,
    by: AccountId,
    flags: PauseFlags,
    reason: PauseReason,
    detail: Option<String>,
    block: u64,
    timestamp: u64,
) -> BridgeState {
    let f = merged(s.pause_flags, flags);
    BridgeState {
        pause_flags: f,
        emergency_pause: if f.all_operations {
            true
        } else {
            s.emergency_pause
        },
        pause_audit_log: logged(
            s.pause_audit_log,
            PauseAuditEntry {
                triggered_by: by,
                paused: true,
                flags_after: f,
                reason,
                detail,
                block_number: block,
                timestamp,
            },
        ),
        ..s
    }
}

/// The state after `by` lifts `flags` at `block` and `timestamp`.
pub open spec fn unpaused_state(s: BridgeState, by: AccountId, flags: PauseFlags, block: u64, timestamp: u64) -> BridgeState {
    let f = cleared(s.pause_flags, flags);
    BridgeState {
        pause_flags: f,
        emergency_pause: f.all_operations,
        pause_audit_log: logged(
            s.pause_audit_log,
            PauseAuditEntry {
                triggered_by: by,
                paused: false,
                flags_after: f,
                reason: PauseReason::ManualAdmin,
                detail: None,
                block_number: block,
                timestamp,
            },
        ),
        ..s
    }
}

impl PropertyBridge {
    /// The request side of the state.
    pub closed spec fn ledger(&self) -> crate::bridge::requests::LedgerState {
        self.ledger@
    }

    /// Whether the requests are those of `other`.
    pub open spec fn requests_unchanged(&self, other: PropertyBridge) -> bool {
        self.ledger() == other.ledger()
    }

    /// Whether there is no request yet.
    pub open spec fn requests_empty(&self) -> bool {
        self.ledger() == crate::bridge::requests::empty_ledger()
    }

    /// The invariants of the bridge's tables.
    pub closed spec fn wf(&self) -> bool {
        &&& self.chain_info.wf()
        &&& self.ledger.wf()
        &&& self.operator_public_keys.wf()
    }

    /// A bridge administered (and operated) by `caller` between `supported_chains`,
    /// each starting active under its default name, multiplier, depth and daily limit.
    pub fn new(
        caller: AccountId,
        supported_chains: Vec<ChainId>,
        min_signatures: u8,
        max_signatures: u8,
        default_timeout: u64,
        gas_limit: u64,
    ) -> (r: PropertyBridge)
        ensures
            r.wf(),
            r@.admin == caller,
            r@.supported_chains == supported_chains@,
            r@.min_signatures == min_signatures,
            r@.max_signatures == max_signatures,
            r@.default_timeout_blocks == default_timeout,
            r@.gas_limit_per_bridge == gas_limit,
            !r@.emergency_pause && r@.metadata_preservation && r@.rate_limit_enabled,
            r@.max_requests_per_day == 10,
            r@.max_value_per_day == 1_000_000_000_000_000_000,
            r@.operators == seq![caller],
            r@.validators == Seq::<AccountId>::empty(),
            r@.guardians == Seq::<AccountId>::empty(),
            r@.pause_flags == no_flags(),
            r@.pause_audit_log == Seq::<PauseAuditEntry>::empty(),
            r@.suspicious_config == default_suspicious_config(),
            r@.pending_admin_rotation is None,
            r@.operator_keys == Map::<AccountId, [u8; 33]>::empty(),
            forall|c: ChainId| #[trigger]
                r@.chain_info.contains_key(c) <==> listed_chain(supported_chains@, c),
            forall|c: ChainId| #[trigger]
                r@.chain_info.contains_key(c) ==> default_chain(r@.chain_info[c], c),
            r.requests_empty(),
    {
        let mut chain_info: Table<ChainId, ChainBridgeInfo> = Table::new();
        let n = supported_chains.len();
        let mut i: usize = 0;
        while i < n
            invariant
                chain_info.wf(),
                n == supported_chains@.len(),
                i <= n,
                forall|c: ChainId| #[trigger]
                    chain_info@.contains_key(c) <==> listed_chain(supported_chains@.subrange(0, i as int), c),
                forall|c: ChainId| #[trigger] chain_info@.contains_key(c) ==> default_chain(chain_info@[c], c),
            decreases n - i,
        {
            let chain_id = supported_chains[i];
            let info = ChainBridgeInfo {
                chain_id,
                chain_name: chain_name_for(chain_id),
                bridge_contract_address: None,
                is_active: true,
                gas_multiplier: DEFAULT_GAS_MULTIPLIER,
                confirmation_blocks: DEFAULT_CONFIRMATION_BLOCKS,
                supported_tokens: Vec::new(),
                chain_daily_limit: DEFAULT_CHAIN_DAILY_LIMIT,
            };
            chain_info.insert(chain_id, info);
            proof {
                let pre = supported_chains@.subrange(0, i as int);
                let post = supported_chains@.subrange(0, i + 1);
                assert forall|c: ChainId| listed_chain(post, c) <==> (listed_chain(pre, c) || c == chain_id) by {
                    if listed_chain(post, c) {
                        let j = choose|j: int| 0 <= j < post.len() && post[j] == c;
                        if j < i {
                            assert(pre[j] == c);
                        }
                    }
                    if listed_chain(pre, c) {
                        let j = choose|j: int| 0 <= j < pre.len() && pre[j] == c;
                        assert(post[j] == c);
                    }
                    if c == chain_id {
                        assert(post[i as int] == c);
                    }
                }
            }
            i = i + 1;
        }
        assert(supported_chains@.subrange(0, n as int) =~= supported_chains@);
        let config = BridgeConfig {
            supported_chains,
            min_signatures_required: min_signatures,
            max_signatures_required: max_signatures,
            default_timeout_blocks: default_timeout,
            gas_limit_per_bridge: gas_limit,
            emergency_pause: false,
            metadata_preservation: true,
            rate_limit_enabled: true,
            max_requests_per_day: 10,
            max_value_per_day: 1_000_000_000_000_000_000,
        };
        let mut operators: Vec<AccountId> = Vec::new();
        operators.push(caller);
        let r = PropertyBridge {
            config,
            chain_info,
            bridge_operators: operators,
            validators: Vec::new(),
            guardians: Vec::new(),
            admin: caller,
            pending_admin_rotation: None,
            pause_flags: PauseFlags::none(),
            pause_audit_log: Vec::new(),
            suspicious_config: SuspiciousActivityConfig::default_config(),
            ledger: crate::bridge::requests::RequestLedger::new(),
            operator_public_keys: Table::new(),
        };
        assert(r@.operators =~= seq![caller]);
        assert(r@.validators =~= Seq::<AccountId>::empty());
        assert(r@.guardians =~= Seq::<AccountId>::empty());
        assert(r@.pause_audit_log =~= Seq::<PauseAuditEntry>::empty());
        r
    }

    /// Whether operations of class `op` are stopped.
    pub fn is_operation_paused(&self, op: BridgeOperation) -> (r: bool)
        ensures
            r == op_paused(self@, op),
    {
        if self.config.emergency_pause || self.pause_flags.all_operations {
            return true;
        }
        match op {
            BridgeOperation::NewRequest => self.pause_flags.new_requests,
            BridgeOperation::Signing => self.pause_flags.signing,
            BridgeOperation::Execution => self.pause_flags.execution,
            BridgeOperation::CrossChainTrade => self.pause_flags.cross_chain_trades,
        }
    }

    fn push_audit_entry(&mut self, entry: PauseAuditEntry)
        ensures
            final(self)@ == (BridgeState { pause_audit_log: logged(old(self)@.pause_audit_log, entry), ..old(self)@ }),
            final(self).wf() == old(self).wf(),
            final(self).ledger == old(self).ledger,
    {
        let ghost e = entry;
        if self.pause_audit_log.len() >= PAUSE_AUDIT_LOG_LIMIT {
            self.pause_audit_log.remove(0);
        }
        self.pause_audit_log.push(entry);
        assert(self@.pause_audit_log =~= logged(old(self)@.pause_audit_log, e));
    }

    fn apply_pause(
        &mut self,
        by: AccountId,
        flags: PauseFlags,
        reason: PauseReason,
        detail: Option<String>,
        block: u64,
        timestamp: u64,
    )
        ensures
            final(self)@ == paused_state(old(self)@, by, flags, reason, detail, block, timestamp),
            final(self).wf() == old(self).wf(),
            final(self).ledger == old(self).ledger,
    {
        self.pause_flags.all_operations = self.pause_flags.all_operations || flags.all_operations;
        self.pause_flags.new_requests = self.pause_flags.new_requests || flags.new_requests;
        self.pause_flags.signing = self.pause_flags.signing || flags.signing;
        self.pause_flags.execution = self.pause_flags.execution || flags.execution;
        self.pause_flags.cross_chain_trades = self.pause_flags.cross_chain_trades || flags.cross_chain_trades;
        if self.pause_flags.all_operations {
            self.config.emergency_pause = true;
        }
        let entry = PauseAuditEntry {
            triggered_by: by,
            paused: true,
            flags_after: self.pause_flags,
            reason,
            detail,
            block_number: block,
            timestamp,
        };
        self.push_audit_entry(entry);
    }

    fn apply_unpause(&mut self, by: AccountId, flags: PauseFlags, block: u64, timestamp: u64)
        ensures
            final(self)@ == unpaused_state(old(self)@, by, flags, block, timestamp),
            final(self).wf() == old(self).wf(),
            final(self).ledger == old(self).ledger,
    {
        if flags.all_operations {
            self.pause_flags.all_operations = false;
        }
        if flags.new_requests {
            self.pause_flags.new_requests = false;
        }
        if flags.signing {
            self.pause_flags.signing = false;
        }
        if flags.execution {
            self.pause_flags.execution = false;
        }
        if flags.cross_chain_trades {
            self.pause_flags.cross_chain_trades = false;
        }
        self.config.emergency_pause = self.pause_flags.all_operations;
        let entry = PauseAuditEntry {
            triggered_by: by,
            paused: false,
            flags_after: self.pause_flags,
            reason: PauseReason::ManualAdmin,
            detail: None,
            block_number: block,
            timestamp,
        };
        self.push_audit_entry(entry);
    }

    /// The admin or a guardian pauses the operation classes in `flags` (on top of
    /// those already paused); a pause naming no class is refused.
    pub fn emergency_pause(
        &mut self,
        caller: AccountId,
        block: u64,
        timestamp: u64,
        flags: PauseFlags,
        reason: PauseReason,
        detail: Option<String>,
    ) -> (r: Result<(), BridgeError>)
        requires
            old(self).wf(),
        ensures
            final(self).wf(),
            final(self).requests_unchanged(*old(self)),
            caller != old(self)@.admin && !listed(old(self)@.guardians, caller) ==> r == Err::<(), BridgeError>(
                BridgeError::NotGuardian,
            ) && final(self)@ == old(self)@,
            (caller == old(self)@.admin || listed(old(self)@.guardians, caller)) && !any_flag(flags) ==> r
                == Err::<(), BridgeError>(BridgeError::InvalidRequest) && final(self)@ == old(self)@,
            (caller == old(self)@.admin || listed(old(self)@.guardians, caller)) && any_flag(flags) ==> r
                == Ok::<(), BridgeError>(()) && final(self)@ == paused_state(
                old(self)@,
                caller,
                flags,
                reason,
                detail,
                block,
                timestamp,
            ),
    {
        let is_admin = caller == self.admin;
        let is_guardian = is_listed(&self.guardians, caller);
        if !is_admin && !is_guardian {
            return Err(BridgeError::NotGuardian);
        }
        if !(flags.all_operations || flags.new_requests || flags.signing || flags.execution
            || flags.cross_chain_trades) {
            return Err(BridgeError::InvalidRequest);
        }
        self.apply_pause(caller, flags, reason, detail, block, timestamp);
        Ok(())
    }

    /// The admin lifts the pause of the operation classes in `flags`; the others stay
    /// paused.
    pub fn emergency_unpause(&mut self, caller: AccountId, block: u64, timestamp: u64, flags: PauseFlags) -> (r:
        Result<(), BridgeError>)
        requires
            old(self).wf(),
        ensures
            final(self).wf(),
            final(self).requests_unchanged(*old(self)),
            caller != old(self)@.admin ==> r == Err::<(), BridgeError>(BridgeError::Unauthorized)
                && final(self)@ == old(self)@,
            caller == old(self)@.admin ==> r == Ok::<(), BridgeError>(()) && final(self)@ == unpaused_state(
                old(self)@,
                caller,
                flags,
                block,
                timestamp,
            ),
    {
        if caller != self.admin {
            return Err(BridgeError::Unauthorized);
        }
        self.apply_unpause(caller, flags, block, timestamp);
        Ok(())
    }

    /// The admin pauses every operation (`true`) or lifts every pause (`false`).
    pub fn set_emergency_pause(&mut self, caller: AccountId, block: u64, timestamp: u64, paused: bool) -> (r:
        Result<(), BridgeError>)
        requires
            old(self).wf(),
        ensures
            final(self).wf(),
            final(self).requests_unchanged(*old(self)),
            caller != old(self)@.admin ==> r == Err::<(), BridgeError>(BridgeError::Unauthorized)
                && final(self)@ == old(self)@,
            caller == old(self)@.admin && paused ==> r == Ok::<(), BridgeError>(())
                && final(self)@.pause_flags == all_flags() && final(self)@.emergency_pause
                && final(self)@.pause_audit_log.len() > 0
                && final(self)@.pause_audit_log.last().detail is Some,
            caller == old(self)@.admin && !paused ==> r == Ok::<(), BridgeError>(()) && final(self)@
                == unpaused_state(old(self)@, caller, all_flags(), block, timestamp),
    {
        if caller != self.admin {
            return Err(BridgeError::Unauthorized);
        }
        if paused {
            let detail = String::from_str("Legacy set_emergency_pause(true)");
            self.apply_pause(caller, PauseFlags::all(), PauseReason::ManualAdmin, Some(detail), block, timestamp);
        } else {
            self.apply_unpause(caller, PauseFlags::all(), block, timestamp);
        }
        Ok(())
    }

    /// The current pause flags.
    pub fn get_pause_flags(&self) -> (r: PauseFlags)
        ensures
            r == self@.pause_flags,
    {
        self.pause_flags
    }

    /// The pause and unpause history, oldest first.
    pub fn get_pause_audit_log(&self) -> (r: &Vec<PauseAuditEntry>)
        ensures
            r@ == self@.pause_audit_log,
    {
        &self.pause_audit_log
    }

    /// The thresholds that trip the circuit breaker on their own.
    pub fn get_suspicious_config(&self) -> (r: SuspiciousActivityConfig)
        ensures
            r == self@.suspicious_config,
    {
        self.suspicious_config
    }

    /// The admin replaces the circuit breaker's thresholds.
    pub fn update_suspicious_config(&mut self, caller: AccountId, config: SuspiciousActivityConfig) -> (r: Result<
        (),
        BridgeError,
    >)
        requires
            old(self).wf(),
        ensures
            final(self).wf(),
            final(self).requests_unchanged(*old(self)),
            caller != old(self)@.admin ==> r == Err::<(), BridgeError>(BridgeError::Unauthorized)
                && final(self)@ == old(self)@,
            caller == old(self)@.admin ==> r == Ok::<(), BridgeError>(()) && final(self)@ == (BridgeState {
                suspicious_config: config,
                ..old(self)@
            }),
    {
        if caller != self.admin {
            return Err(BridgeError::Unauthorized);
        }
        self.suspicious_config = config;
        Ok(())
    }

    /// The admin or a guardian reports an incident measured against a threshold; with
    /// automatic pausing on, a positive threshold reached pauses the classes the
    /// incident's kind calls for.
    pub fn report_suspicious_activity(
        &mut self,
        caller: AccountId,
        block: u64,
        timestamp: u64,
        reason: PauseReason,
        measured: u128,
        threshold: u128,
        detail: Option<String>,
    ) -> (r: Result<(), BridgeError>)
        requires
            old(self).wf(),
        ensures
            final(self).wf(),
            final(self).requests_unchanged(*old(self)),
            caller != old(self)@.admin && !listed(old(self)@.guardians, caller) ==> r == Err::<(), BridgeError>(
                BridgeError::NotGuardian,
            ) && final(self)@ == old(self)@,
            caller == old(self)@.admin || listed(old(self)@.guardians, caller) ==> r == Ok::<(), BridgeError>(())
                && final(self)@ == if old(self)@.suspicious_config.auto_pause_enabled && measured >= threshold
                && threshold > 0 {
                paused_state(old(self)@, caller, flags_for(reason), reason, detail, block, timestamp)
            } else {
                old(self)@
            },
    {
        let is_admin = caller == self.admin;
        let is_guardian = is_listed(&self.guardians, caller);
        if !is_admin && !is_guardian {
            return Err(BridgeError::NotGuardian);
        }
        if self.suspicious_config.auto_pause_enabled && measured >= threshold && threshold > 0 {
            let flags = pause_flags_for_reason(reason);
            self.apply_pause(caller, flags, reason, detail, block, timestamp);
        }
        Ok(())
    }

    /// The admin adds a bridge operator (once).
    pub fn add_bridge_operator(&mut self, caller: AccountId, operator: AccountId) -> (r: Result<(), BridgeError>)
        requires
            old(self).wf(),
        ensures
            final(self).wf(),
            final(self).requests_unchanged(*old(self)),
            caller != old(self)@.admin ==> r == Err::<(), BridgeError>(BridgeError::Unauthorized)
                && final(self)@ == old(self)@,
            caller == old(self)@.admin ==> r == Ok::<(), BridgeError>(()) && final(self)@ == (BridgeState {
                operators: with_once(old(self)@.operators, operator),
                ..old(self)@
            }),
    {
        if caller != self.admin {
            return Err(BridgeError::Unauthorized);
        }
        add_once(&mut self.bridge_operators, operator);
        Ok(())
    }

    /// The admin removes a bridge operator.
    pub fn remove_bridge_operator(&mut self, caller: AccountId, operator: AccountId) -> (r: Result<(), BridgeError>)
        requires
            old(self).wf(),
        ensures
            final(self).wf(),
            final(self).requests_unchanged(*old(self)),
            caller != old(self)@.admin ==> r == Err::<(), BridgeError>(BridgeError::Unauthorized)
                && final(self)@ == old(self)@,
            caller == old(self)@.admin ==> r == Ok::<(), BridgeError>(()) && final(self)@ == (BridgeState {
                operators: without(old(self)@.operators, operator),
                ..old(self)@
            }),
    {
        if caller != self.admin {
            return Err(BridgeError::Unauthorized);
        }
        remove_all(&mut self.bridge_operators, operator);
        Ok(())
    }

    /// A bridge operator registers the public key its signed approvals will be checked
    /// against, replacing any it registered before.
    pub fn register_operator_public_key(&mut self, caller: AccountId, public_key: [u8; 33]) -> (r: Result<
        (),
        BridgeError,
    >)
        requires
            old(self).wf(),
        ensures
            final(self).wf(),
            final(self).requests_unchanged(*old(self)),
            !listed(old(self)@.operators, caller) ==> r == Err::<(), BridgeError>(BridgeError::Unauthorized)
                && final(self)@ == old(self)@,
            listed(old(self)@.operators, caller) ==> r == Ok::<(), BridgeError>(()) && final(self)@ == (BridgeState {
                operator_keys: old(self)@.operator_keys.insert(caller, public_key),
                ..old(self)@
            }),
    {
        if !is_listed(&self.bridge_operators, caller) {
            return Err(BridgeError::Unauthorized);
        }
        self.operator_public_keys.insert(caller, public_key);
        Ok(())
    }

    /// Whether `account` is a bridge operator.
    pub fn is_bridge_operator(&self, account: AccountId) -> (r: bool)
        ensures
            r == listed(self@.operators, account),
    {
        is_listed(&self.bridge_operators, account)
    }

    /// The bridge operators, in the order they were added.
    pub fn get_bridge_operators(&self) -> (r: Vec<AccountId>)
        ensures
            r@ == self@.operators,
    {
        let r = self.bridge_operators.clone();
        assert(r@ =~= self@.operators);
        r
    }

    /// The admin adds a validator (once); only validators sign requests.
    pub fn add_validator(&mut self, caller: AccountId, validator: AccountId) -> (r: Result<(), BridgeError>)
        requires
            old(self).wf(),
        ensures
            final(self).wf(),
            final(self).requests_unchanged(*old(self)),
            caller != old(self)@.admin ==> r == Err::<(), BridgeError>(BridgeError::Unauthorized)
                && final(self)@ == old(self)@,
            caller == old(self)@.admin ==> r == Ok::<(), BridgeError>(()) && final(self)@ == (BridgeState {
                validators: with_once(old(self)@.validators, validator),
                ..old(self)@
            }),
    {
        if caller != self.admin {
            return Err(BridgeError::Unauthorized);
        }
        add_once(&mut self.validators, validator);
        Ok(())
    }

    /// The admin removes a validator.
    pub fn remove_validator(&mut self, caller: AccountId, validator: AccountId) -> (r: Result<(), BridgeError>)
        requires
            old(self).wf(),
        ensures
            final(self).wf(),
            final(self).requests_unchanged(*old(self)),
            caller != old(self)@.admin ==> r == Err::<(), BridgeError>(BridgeError::Unauthorized)
                && final(self)@ == old(self)@,
            caller == old(self)@.admin ==> r == Ok::<(), BridgeError>(()) && final(self)@ == (BridgeState {
                validators: without(old(self)@.validators, validator),
                ..old(self)@
            }),
    {
        if caller != self.admin {
            return Err(BridgeError::Unauthorized);
        }
        remove_all(&mut self.validators, validator);
        Ok(())
    }

    /// The validators, in the order they were added.
    pub fn get_validators(&self) -> (r: Vec<AccountId>)
        ensures
            r@ == self@.validators,
    {
        let r = self.validators.clone();
        assert(r@ =~= self@.validators);
        r
    }

    /// Whether `account` is a validator.
    pub fn is_validator(&self, account: AccountId) -> (r: bool)
        ensures
            r == listed(self@.validators, account),
    {
        is_listed(&self.validators, account)
    }

    /// The admin adds a guardian (once); guardians may pause but not unpause.
    pub fn add_guardian(&mut self, caller: AccountId, guardian: AccountId) -> (r: Result<(), BridgeError>)
        requires
            old(self).wf(),
        ensures
            final(self).wf(),
            final(self).requests_unchanged(*old(self)),
            caller != old(self)@.admin ==> r == Err::<(), BridgeError>(BridgeError::Unauthorized)
                && final(self)@ == old(self)@,
            caller == old(self)@.admin ==> r == Ok::<(), BridgeError>(()) && final(self)@ == (BridgeState {
                guardians: with_once(old(self)@.guardians, guardian),
                ..old(self)@
            }),
    {
        if caller != self.admin {
            return Err(BridgeError::Unauthorized);
        }
        add_once(&mut self.guardians, guardian);
        Ok(())
    }

    /// The admin removes a guardian.
    pub fn remove_guardian(&mut self, caller: AccountId, guardian: AccountId) -> (r: Result<(), BridgeError>)
        requires
            old(self).wf(),
        ensures
            final(self).wf(),
            final(self).requests_unchanged(*old(self)),
            caller != old(self)@.admin ==> r == Err::<(), BridgeError>(BridgeError::Unauthorized)
                && final(self)@ == old(self)@,
            caller == old(self)@.admin ==> r == Ok::<(), BridgeError>(()) && final(self)@ == (BridgeState {
                guardians: without(old(self)@.guardians, guardian),
                ..old(self)@
            }),
    {
        if caller != self.admin {
            return Err(BridgeError::Unauthorized);
        }
        remove_all(&mut self.guardians, guardian);
        Ok(())
    }

    /// Whether `account` is a guardian.
    pub fn is_guardian(&self, account: AccountId) -> (r: bool)
        ensures
            r == listed(self@.guardians, account),
    {
        is_listed(&self.guardians, account)
    }

    /// The guardians, in the order they were added.
    pub fn get_guardians(&self) -> (r: Vec<AccountId>)
        ensures
            r@ == self@.guardians,
    {
        let r = self.guardians.clone();
        assert(r@ =~= self@.guardians);
        r
    }

    /// The admin replaces the configuration.
    pub fn update_config(&mut self, caller: AccountId, config: BridgeConfig) -> (r: Result<(), BridgeError>)
        requires
            old(self).wf(),
        ensures
            final(self).wf(),
            final(self).requests_unchanged(*old(self)),
            caller != old(self)@.admin ==> r == Err::<(), BridgeError>(BridgeError::Unauthorized)
                && final(self)@ == old(self)@,
            caller == old(self)@.admin ==> r == Ok::<(), BridgeError>(()) && final(self)@ == (BridgeState {
                supported_chains: config.supported_chains@,
                min_signatures: config.min_signatures_required,
                max_signatures: config.max_signatures_required,
                default_timeout_blocks: config.default_timeout_blocks,
                gas_limit_per_bridge: config.gas_limit_per_bridge,
                emergency_pause: config.emergency_pause,
                metadata_preservation: config.metadata_preservation,
                rate_limit_enabled: config.rate_limit_enabled,
                max_requests_per_day: config.max_requests_per_day,
                max_value_per_day: config.max_value_per_day,
                ..old(self)@
            }),
    {
        if caller != self.admin {
            return Err(BridgeError::Unauthorized);
        }
        self.config = config;
        Ok(())
    }

    /// The configuration.
    pub fn get_config(&self) -> (r: BridgeConfig)
        ensures
            r.supported_chains@ == self@.supported_chains,
            r.min_signatures_required == self@.min_signatures,
            r.max_signatures_required == self@.max_signatures,
            r.default_timeout_blocks == self@.default_timeout_blocks,
            r.gas_limit_per_bridge == self@.gas_limit_per_bridge,
            r.emergency_pause == self@.emergency_pause,
            r.metadata_preservation == self@.metadata_preservation,
            r.rate_limit_enabled == self@.rate_limit_enabled,
            r.max_requests_per_day == self@.max_requests_per_day,
            r.max_value_per_day == self@.max_value_per_day,
    {
        let chains = self.config.supported_chains.clone();
        assert(chains@ =~= self.config.supported_chains@);
        BridgeConfig {
            supported_chains: chains,
            min_signatures_required: self.config.min_signatures_required,
            max_signatures_required: self.config.max_signatures_required,
            default_timeout_blocks: self.config.default_timeout_blocks,
            gas_limit_per_bridge: self.config.gas_limit_per_bridge,
            emergency_pause: self.config.emergency_pause,
            metadata_preservation: self.config.metadata_preservation,
            rate_limit_enabled: self.config.rate_limit_enabled,
            max_requests_per_day: self.config.max_requests_per_day,
            max_value_per_day: self.config.max_value_per_day,
        }
    }

    /// What the bridge knows of chain `chain_id`, if anything.
    pub fn get_chain_info(&self, chain_id: ChainId) -> (r: Option<ChainBridgeInfo>)
        requires
            self.wf(),
        ensures
            !self@.chain_info.contains_key(chain_id) ==> r is None,
            self@.chain_info.contains_key(chain_id) ==> r is Some && same_info(r->0, self@.chain_info[chain_id]),
    {
        match self.chain_info.get(&chain_id) {
            Some(i) => {
                let tokens = i.supported_tokens.clone();
                assert(tokens@ =~= i.supported_tokens@);
                Some(
                    ChainBridgeInfo {
                        chain_id: i.chain_id,
                        chain_name: i.chain_name.clone(),
                        bridge_contract_address: i.bridge_contract_address,
                        is_active: i.is_active,
                        gas_multiplier: i.gas_multiplier,
                        confirmation_blocks: i.confirmation_blocks,
                        supported_tokens: tokens,
                        chain_daily_limit: i.chain_daily_limit,
                    },
                )
            },
            None => None,
        }
    }

    /// The admin replaces what the bridge knows of chain `chain_id`.
    pub fn update_chain_info(&mut self, caller: AccountId, chain_id: ChainId, info: ChainBridgeInfo) -> (r: Result<
        (),
        BridgeError,
    >)
        requires
            old(self).wf(),
        ensures
            final(self).wf(),
            final(self).requests_unchanged(*old(self)),
            caller != old(self)@.admin ==> r == Err::<(), BridgeError>(BridgeError::Unauthorized)
                && final(self)@ == old(self)@,
            caller == old(self)@.admin ==> r == Ok::<(), BridgeError>(()) && final(self)@ == (BridgeState {
                chain_info: old(self)@.chain_info.insert(chain_id, info),
                ..old(self)@
            }),
    {
        if caller != self.admin {
            return Err(BridgeError::Unauthorized);
        }
        self.chain_info.insert(chain_id, info);
        Ok(())
    }

    /// The gas a transfer to `destination_chain` is expected to use: the base gas scaled
    /// by the chain's multiplier (in percent), plus a percentage per confirmation block,
    /// capped at the configured limit.
    pub fn estimate_bridge_gas(&self, token_id: TokenId, destination_chain: ChainId) -> (r: Result<u64, BridgeError>)
        requires
            self.wf(),
        ensures
            r == if !self@.chain_info.contains_key(destination_chain) || !self@.chain_info[destination_chain].is_active {
                Err::<u64, BridgeError>(BridgeError::InvalidChain)
            } else {
                Ok::<u64, BridgeError>(gas_estimate(self@, self@.chain_info[destination_chain]))
            },
    {
        let (active, multiplier, confirmations) = match self.chain_info.get(&destination_chain) {
            Some(i) => (i.is_active, i.gas_multiplier, i.confirmation_blocks),
            None => return Err(BridgeError::InvalidChain),
        };
        if !active {
            return Err(BridgeError::InvalidChain);
        }
        let adjusted_base = crate::common::sat_mul64(BRIDGE_BASE_GAS, multiplier as u64) / 100;
        let overhead = crate::common::sat_mul64(adjusted_base, confirmations as u64) / 100;
        let estimated = adjusted_base.saturating_add(overhead);
        if estimated <= self.config.gas_limit_per_bridge {
            Ok(estimated)
        } else {
            Ok(self.config.gas_limit_per_bridge)
        }
    }

    /// The admin.
    pub fn get_admin(&self) -> (r: AccountId)
        ensures
            r == self@.admin,
    {
        self.admin
    }

    /// The admin nominates `new_admin`, who may confirm after the cooldown.
    pub fn request_admin_rotation(&mut self, caller: AccountId, block: u32, new_admin: AccountId) -> (r: Result<
        (),
        BridgeError,
    >)
        requires
            old(self).wf(),
        ensures
            final(self).wf(),
            final(self).requests_unchanged(*old(self)),
            caller != old(self)@.admin ==> r == Err::<(), BridgeError>(BridgeError::Unauthorized)
                && final(self)@ == old(self)@,
            caller == old(self)@.admin ==> r == Ok::<(), BridgeError>(()) && final(self)@ == (BridgeState {
                pending_admin_rotation: Some(rotation_request(caller, new_admin, block)),
                ..old(self)@
            }),
    {
        if caller != self.admin {
            return Err(BridgeError::Unauthorized);
        }
        self.pending_admin_rotation = Some(crate::common::new_rotation_request(caller, new_admin, block));
        Ok(())
    }

    /// The nominee takes over once the cooldown has passed; a nomination left past its
    /// expiry is dropped.
    pub fn confirm_admin_rotation(&mut self, caller: AccountId, block: u32) -> (r: Result<(), BridgeError>)
        requires
            old(self).wf(),
        ensures
            final(self).wf(),
            final(self).requests_unchanged(*old(self)),
            ({
                let s = old(self)@;
                match s.pending_admin_rotation {
                    None => r == Err::<(), BridgeError>(BridgeError::InvalidRequest) && final(self)@ == s,
                    Some(req) => if req.new_account != caller {
                        r == Err::<(), BridgeError>(BridgeError::Unauthorized) && final(self)@ == s
                    } else if block < req.effective_at {
                        r == Err::<(), BridgeError>(BridgeError::InvalidRequest) && final(self)@ == s
                    } else if block > sadd32(req.effective_at, KEY_ROTATION_EXPIRY_BLOCKS) {
                        r == Err::<(), BridgeError>(BridgeError::RequestExpired) && final(self)@ == (BridgeState {
                            pending_admin_rotation: None,
                            ..s
                        })
                    } else {
                        r == Ok::<(), BridgeError>(()) && final(self)@ == (BridgeState {
                            admin: caller,
                            pending_admin_rotation: None,
                            ..s
                        })
                    },
                }
            }),
    {
        let request = match self.pending_admin_rotation {
            Some(req) => req,
            None => return Err(BridgeError::InvalidRequest),
        };
        if request.new_account != caller {
            return Err(BridgeError::Unauthorized);
        }
        if block < request.effective_at {
            return Err(BridgeError::InvalidRequest);
        }
        let expiry = request.effective_at.saturating_add(KEY_ROTATION_EXPIRY_BLOCKS);
        if block > expiry {
            self.pending_admin_rotation = None;
            return Err(BridgeError::RequestExpired);
        }
        self.admin = caller;
        self.pending_admin_rotation = None;
        Ok(())
    }

    /// The admin who nominated, or the nominee, withdraws a pending rotation.
    pub fn cancel_admin_rotation(&mut self, caller: AccountId) -> (r: Result<(), BridgeError>)
        requires
            old(self).wf(),
        ensures
            final(self).wf(),
            final(self).requests_unchanged(*old(self)),
            ({
                let s = old(self)@;
                match s.pending_admin_rotation {
                    None => r == Err::<(), BridgeError>(BridgeError::InvalidRequest) && final(self)@ == s,
                    Some(req) => if caller != req.old_account && caller != req.new_account {
                        r == Err::<(), BridgeError>(BridgeError::Unauthorized) && final(self)@ == s
                    } else {
                        r == Ok::<(), BridgeError>(()) && final(self)@ == (BridgeState {
                            pending_admin_rotation: None,
                            ..s
                        })
                    },
                }
            }),
    {
        let request = match self.pending_admin_rotation {
            Some(req) => req,
            None => return Err(BridgeError::InvalidRequest),
        };
        if caller != request.old_account && caller != request.new_account {
            return Err(BridgeError::Unauthorized);
        }
        self.pending_admin_rotation = None;
        Ok(())
    }
}

/// Whether `c` is one of `chains`.
pub open spec fn listed_chain(chains: Seq<ChainId>, c: ChainId) -> bool {
    exists|i: int| 0 <= i < chains.len() && chains[i] == c
}

/// Whether `c` is among `chains` (see [`listed_chain`]).
pub fn contains_chain(chains: &Vec<ChainId>, c: ChainId) -> (r: bool)
    ensures
        r == listed_chain(chains@, c),
{
    let mut found = false;
    let n = chains.len();
    let mut i: usize = 0;
    while i < n
        invariant
            n == chains@.len(),
            i <= n,
            found == listed_chain(chains@.subrange(0, i as int), c),
        decreases n - i,
    {
        proof {
            let pre = chains@.subrange(0, i as int);
            let post = chains@.subrange(0, i + 1);
            if listed_chain(post, c) {
                let j = choose|j: int| 0 <= j < post.len() && post[j] == c;
                if j < i {
                    assert(pre[j] == c);
                }
            }
            if listed_chain(pre, c) {
                let j = choose|j: int| 0 <= j < pre.len() && pre[j] == c;
                assert(post[j] == c);
            }
            if chains@[i as int] == c {
                assert(post[i as int] == c);
            }
        }
        if chains[i] == c {
            found = true;
        }
        i = i + 1;
    }
    assert(chains@.subrange(0, n as int) =~= chains@);
    found
}

/// Whether `info` is what the bridge starts with for chain `c`.
pub open spec fn default_chain(info: ChainBridgeInfo, c: ChainId) -> bool {
    &&& info.chain_id == c
    &&& info.chain_name@ == default_chain_name(c)
    &&& info.bridge_contract_address is None
    &&& info.is_active
    &&& info.gas_multiplier == DEFAULT_GAS_MULTIPLIER
    &&& info.confirmation_blocks == DEFAULT_CONFIRMATION_BLOCKS
    &&& info.supported_tokens@.len() == 0
    &&& info.chain_daily_limit == DEFAULT_CHAIN_DAILY_LIMIT
}

/// Whether two chain records hold the same information.
pub open spec fn same_info(a: ChainBridgeInfo, b: ChainBridgeInfo) -> bool {
    &&& a.chain_id == b.chain_id
    &&& a.chain_name@ == b.chain_name@
    &&& a.bridge_contract_address == b.bridge_contract_address
    &&& a.is_active == b.is_active
    &&& a.gas_multiplier == b.gas_multiplier
    &&& a.confirmation_blocks == b.confirmation_blocks
    &&& a.supported_tokens@ == b.supported_tokens@
    &&& a.chain_daily_limit == b.chain_daily_limit
}

/// The gas estimate for a transfer to the chain described by `info`.
pub open spec fn gas_estimate(s: BridgeState, info: ChainBridgeInfo) -> u64 {
    let adjusted = crate::common::smul64(BRIDGE_BASE_GAS, info.gas_multiplier as u64) / 100;
    let overhead = crate::common::smul64(adjusted, info.confirmation_blocks as u64) / 100;
    let estimated = crate::common::sadd64(adjusted, overhead);
    if estimated <= s.gas_limit_per_bridge {
        estimated
    } else {
        s.gas_limit_per_bridge
    }
}

/// The flag that stops operations of class `op`.
pub open spec fn flag_for(f: PauseFlags, op: BridgeOperation) -> bool {
    match op {
        BridgeOperation::NewRequest => f.new_requests,
        BridgeOperation::Signing => f.signing,
        BridgeOperation::Execution => f.execution,
        BridgeOperation::CrossChainTrade => f.cross_chain_trades,
    }
}

/// A pause takes effect at once: every operation class whose flag (or the master
/// flag) was raised is stopped afterwards, and what was stopped stays stopped.
pub proof fn lemma_pause_stops_operations(
    s: BridgeState,
    by: AccountId,
    flags: PauseFlags,
    reason: PauseReason,
    detail: Option<String>,
    block: u64,
    timestamp: u64,
    op: BridgeOperation,
)
    ensures
        flags.all_operations || flag_for(flags, op) ==> op_paused(
            paused_state(s, by, flags, reason, detail, block, timestamp),
            op,
        ),
        op_paused(s, op) ==> op_paused(paused_state(s, by, flags, reason, detail, block, timestamp), op),
{
}

/// Lifting every flag that is set reopens every operation class.
pub proof fn lemma_full_unpause_reopens(s: BridgeState, by: AccountId, flags: PauseFlags, block: u64, timestamp: u64, op: BridgeOperation)
    requires
        s.pause_flags.all_operations ==> flags.all_operations,
        flag_for(s.pause_flags, op) ==> flag_for(flags, op),
    ensures
        !op_paused(unpaused_state(s, by, flags, block, timestamp), op),
{
}

} // verus!
