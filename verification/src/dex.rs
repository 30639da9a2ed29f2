//! The property exchange: constant-product pools with liquidity-mining rewards,
//! an order book of limit and conditional orders, price analytics, cross-chain
//! trade intents, fee governance and a timelock for sensitive admin changes.
use vstd::prelude::*;

pub mod admin;
pub mod book;
pub mod competitions;
pub mod errors;
pub mod orders;
pub mod reports;

use crate::common::{
    get0, get_or, lookup_or, sadd64, AccountId, ReentrancyError, ReentrancyGuard, Table,
};
use crate::math::{
    div_or_zero, floor_sqrt, integer_sqrt, sadd, sat_add, sat_mul, sat_sub, sdiv, smul,
    spec_pending_from_indices, spec_scaled_reward_debt, spec_volatility_bips,
    spec_weighted_average, ssub, volatility_bips, weighted_average, pending_from_indices,
    scaled_reward_debt, BIPS_DENOMINATOR, REWARD_PRECISION,
};

verus! {

/// Identifier of a token traded on the exchange.
pub type TokenId = u64;

/// Identifier of a destination chain.
pub type ChainId = u64;

/// Why an exchange operation was refused.
#[derive(Clone, Copy, Debug, PartialEq, Eq, Structural)]
pub enum DexError {
    Unauthorized,
    InvalidPair,
    PoolNotFound,
    InsufficientLiquidity,
    SlippageExceeded,
    OrderNotFound,
    InvalidOrder,
    InvalidRequest,
    OrderNotExecutable,
    RewardUnavailable,
    ProposalNotFound,
    ProposalClosed,
    AlreadyVoted,
    InvalidBridgeRoute,
    CrossChainTradeNotFound,
    InsufficientGovernanceBalance,
    ReentrantCall,
    TimelockRequired,
    TimelockActive,
    AdminActionNotFound,
    AdminActionAlreadyFinalized,
}

impl DexError {
    /// The error a reentrancy failure becomes.
    pub fn from(_e: ReentrancyError) -> (r: DexError)
        ensures
            r == DexError::ReentrantCall,
    {
        DexError::ReentrantCall
    }
}

/// A constant-product pool of a base and a quote token.
#[derive(Clone, Copy, Debug, PartialEq, Eq, Structural)]
pub struct LiquidityPool {
    pub pair_id: u64,
    pub base_token: TokenId,
    pub quote_token: TokenId,
    pub reserve_base: u128,
    pub reserve_quote: u128,
    pub total_lp_shares: u128,
    pub fee_bips: u32,
    pub reward_index: u128,
    pub cumulative_volume: u128,
    pub last_price: u128,
    pub is_active: bool,
}

/// A provider's share of a pool and its reward bookkeeping.
#[derive(Clone, Copy, Debug, PartialEq, Eq, Structural)]
pub struct LiquidityPosition {
    pub lp_shares: u128,
    pub reward_debt: u128,
    pub provided_base: u128,
    pub provided_quote: u128,
    pub pending_rewards: u128,
}

/// Which way an order trades the base token.
#[derive(Clone, Copy, Debug, PartialEq, Eq, Structural)]
pub enum OrderSide {
    Buy,
    Sell,
}

/// How an order is priced and triggered.
#[derive(Clone, Copy, Debug, PartialEq, Eq, Structural)]
pub enum OrderType {
    Market,
    Limit,
    StopLoss,
    TakeProfit,
    Twap,
}

/// How long an order stays on the book.
#[derive(Clone, Copy, Debug, PartialEq, Eq, Structural)]
pub enum TimeInForce {
    GoodTillCancelled,
    ImmediateOrCancel,
    FillOrKill,
}

/// Where an order stands.
#[derive(Clone, Copy, Debug, PartialEq, Eq, Structural)]
pub enum OrderStatus {
    Open,
    PartiallyFilled,
    Filled,
    Cancelled,
    Triggered,
}

/// An order on the book.
#[derive(Clone, Copy, Debug, PartialEq, Eq, Structural)]
pub struct TradingOrder {
    pub order_id: u64,
    pub pair_id: u64,
    pub trader: AccountId,
    pub side: OrderSide,
    pub order_type: OrderType,
    pub time_in_force: TimeInForce,
    pub price: u128,
    pub amount: u128,
    pub remaining_amount: u128,
    pub trigger_price: Option<u128>,
    pub twap_interval: Option<u64>,
    pub reduce_only: bool,
    pub status: OrderStatus,
    pub created_at: u64,
    pub updated_at: u64,
}

/// Price and volume statistics of a pair.
#[derive(Clone, Copy, Debug, PartialEq, Eq, Structural)]
pub struct PairAnalytics {
    pub pair_id: u64,
    pub last_price: u128,
    pub twap_price: u128,
    pub reference_price: u128,
    pub cumulative_volume: u128,
    pub trade_count: u64,
    pub best_bid: u128,
    pub best_ask: u128,
    pub volatility_bips: u32,
    pub last_updated: u64,
    pub high_24h: u128,
    pub low_24h: u128,
    pub volume_24h: u128,
    pub trade_count_24h: u64,
}

/// The fee of bridging a trade to a destination chain.
#[derive(Clone, Copy, Debug, PartialEq, Eq, Structural)]
pub struct BridgeFeeQuote {
    pub destination_chain: ChainId,
    pub gas_estimate: u64,
    pub protocol_fee: u128,
    pub total_fee: u128,
}

/// Where a cross-chain trade stands.
#[derive(Clone, Copy, Debug, PartialEq, Eq, Structural)]
pub enum CrossChainTradeStatus {
    Pending,
    BridgeRequested,
    Settled,
    Cancelled,
}

/// A trade whose proceeds go to another chain.
#[derive(Clone, Copy, Debug, PartialEq, Eq, Structural)]
pub struct CrossChainTradeIntent {
    pub trade_id: u64,
    pub pair_id: u64,
    pub order_id: Option<u64>,
    pub source_chain: ChainId,
    pub destination_chain: ChainId,
    pub trader: AccountId,
    pub recipient: AccountId,
    pub amount_in: u128,
    pub min_amount_out: u128,
    pub bridge_request_id: Option<u64>,
    pub bridge_fee_quote: BridgeFeeQuote,
    pub status: CrossChainTradeStatus,
    pub created_at: u64,
}

/// The exchange's governance token.
pub struct GovernanceTokenConfig {
    pub symbol: String,
    pub total_supply: u128,
    pub emission_rate: u128,
    pub quorum_bips: u32,
}

/// A fee-governance proposal voted with governance-token balances.
pub struct DexProposal {
    pub proposal_id: u64,
    pub proposer: AccountId,
    pub title: String,
    pub description_hash: [u8; 32],
    pub new_fee_bips: Option<u32>,
    pub new_emission_rate: Option<u128>,
    pub votes_for: u128,
    pub votes_against: u128,
    pub start_block: u64,
    pub end_block: u64,
    pub executed: bool,
}

impl DexProposal {
    /// A field-by-field copy.
    pub fn copy(&self) -> (r: DexProposal)
        ensures
            r == *self,
    {
        DexProposal {
            proposal_id: self.proposal_id,
            proposer: self.proposer,
            title: self.title.clone(),
            description_hash: self.description_hash,
            new_fee_bips: self.new_fee_bips,
            new_emission_rate: self.new_emission_rate,
            votes_for: self.votes_for,
            votes_against: self.votes_against,
            start_block: self.start_block,
            end_block: self.end_block,
            executed: self.executed,
        }
    }
}

/// The liquidity-mining schedule: reward tokens per block between two blocks.
pub struct LiquidityMiningCampaign {
    pub emission_rate: u128,
    pub start_block: u64,
    pub end_block: u64,
    pub reward_token_symbol: String,
}

impl LiquidityMiningCampaign {
    /// A field-by-field copy.
    pub fn copy(&self) -> (r: LiquidityMiningCampaign)
        ensures
            r == *self,
    {
        LiquidityMiningCampaign {
            emission_rate: self.emission_rate,
            start_block: self.start_block,
            end_block: self.end_block,
            reward_token_symbol: self.reward_token_symbol.clone(),
        }
    }
}

/// The kind of a timelocked admin change.
#[derive(Clone, Copy, Debug, PartialEq, Eq, Structural)]
pub enum AdminActionKind {
    ConfigureBridgeRoute,
    SetLiquidityMining,
    UpdateTimelockDelay,
}

/// Where a timelocked admin change stands.
#[derive(Clone, Copy, Debug, PartialEq, Eq, Structural)]
pub enum AdminActionStatus {
    Scheduled,
    Executed,
    Cancelled,
}

/// The parameters of a timelocked admin change.
pub struct AdminActionPayload {
    pub destination_chain: ChainId,
    pub gas_estimate: u64,
    pub protocol_fee: u128,
    pub emission_rate: u128,
    pub start_block: u64,
    pub end_block: u64,
    pub reward_token_symbol: String,
    pub timelock_delay_blocks: u64,
}

/// A scheduled admin change.
pub struct PendingAdminAction {
    pub action_id: u64,
    pub kind: AdminActionKind,
    pub payload: AdminActionPayload,
    pub proposer: AccountId,
    pub scheduled_at: u64,
    pub executable_at: u64,
    pub status: AdminActionStatus,
}

impl PendingAdminAction {
    /// A field-by-field copy.
    pub fn copy(&self) -> (r: PendingAdminAction)
        ensures
            r == *self,
    {
        PendingAdminAction {
            action_id: self.action_id,
            kind: self.kind,
            payload: AdminActionPayload {
                destination_chain: self.payload.destination_chain,
                gas_estimate: self.payload.gas_estimate,
                protocol_fee: self.payload.protocol_fee,
                emission_rate: self.payload.emission_rate,
                start_block: self.payload.start_block,
                end_block: self.payload.end_block,
                reward_token_symbol: self.payload.reward_token_symbol.clone(),
                timelock_delay_blocks: self.payload.timelock_delay_blocks,
            },
            proposer: self.proposer,
            scheduled_at: self.scheduled_at,
            executable_at: self.executable_at,
            status: self.status,
        }
    }
}

/// What an account holds across the exchange.
#[derive(Clone, Copy, Debug, PartialEq, Eq, Structural)]
pub struct PortfolioSnapshot {
    pub owner: AccountId,
    pub liquidity_positions: u64,
    pub open_orders: u64,
    pub pending_rewards: u128,
    pub governance_balance: u128,
    pub estimated_inventory_value: u128,
    pub cross_chain_positions: u64,
}

/// Exchange-wide 24-hour statistics.
#[derive(Clone, Copy, Debug, PartialEq, Eq, Structural)]
pub struct TradingStatistics {
    pub total_pairs: u64,
    pub total_volume_24h: u128,
    pub total_trades_24h: u64,
    pub most_active_pair: Option<u64>,
    pub highest_volume_pair: Option<u64>,
    pub average_volatility_bips: u32,
}

/// A pair's price summary.
#[derive(Clone, Copy, Debug, PartialEq, Eq, Structural)]
pub struct PriceHistory {
    pub pair_id: u64,
    pub current_price: u128,
    pub high_24h: u128,
    pub low_24h: u128,
    pub twap_price: u128,
    pub reference_price: u128,
    pub volatility_bips: u32,
}

/// A pair's volume and liquidity summary.
#[derive(Clone, Copy, Debug, PartialEq, Eq, Structural)]
pub struct VolumeAnalytics {
    pub pair_id: u64,
    pub volume_24h: u128,
    pub cumulative_volume: u128,
    pub trade_count_24h: u64,
    pub total_trade_count: u64,
    pub liquidity_base: u128,
    pub liquidity_quote: u128,
}

/// The abstract state of the exchange.
#[verifier::ext_equal]
pub struct DexState {
    pub admin: AccountId,
    pub pair_counter: u64,
    pub order_counter: u64,
    pub cross_chain_trade_counter: u64,
    pub proposal_counter: u64,
    pub pools: Map<u64, LiquidityPool>,
    pub pair_lookup: Map<(u64, u64), u64>,
    pub positions: Map<(u64, AccountId), LiquidityPosition>,
    pub orders: Map<u64, TradingOrder>,
    pub order_book: Map<(u64, u64), u64>,
    pub order_book_count: Map<u64, u64>,
    pub analytics: Map<u64, PairAnalytics>,
    pub bridge_quotes: Map<u64, BridgeFeeQuote>,
    pub cross_chain_trades: Map<u64, CrossChainTradeIntent>,
    pub governance_symbol: String,
    pub governance_total_supply: u128,
    pub governance_emission_rate: u128,
    pub governance_quorum_bips: u32,
    pub governance_balances: Map<AccountId, u128>,
    pub governance_proposals: Map<u64, DexProposal>,
    pub votes_cast: Map<(u64, AccountId), bool>,
    pub mining_emission_rate: u128,
    pub mining_start_block: u64,
    pub mining_end_block: u64,
    pub mining_symbol: String,
    pub last_reward_block: Map<u64, u64>,
    pub locked: bool,
    pub admin_timelock_delay: u64,
    pub pending_admin_actions: Map<u64, PendingAdminAction>,
    pub pending_admin_action_counter: u64,
}

/// The exchange contract.
pub struct PropertyDex {
    admin: AccountId,
    pair_counter: u64,
    order_counter: u64,
    cross_chain_trade_counter: u64,
    proposal_counter: u64,
    pools: Table<u64, LiquidityPool>,
    pair_lookup: Table<(u64, u64), u64>,
    positions: Table<(u64, AccountId), LiquidityPosition>,
    orders: Table<u64, TradingOrder>,
    order_book: Table<(u64, u64), u64>,
    order_book_count: Table<u64, u64>,
    analytics: Table<u64, PairAnalytics>,
    bridge_quotes: Table<u64, BridgeFeeQuote>,
    cross_chain_trades: Table<u64, CrossChainTradeIntent>,
    governance_config: GovernanceTokenConfig,
    governance_balances: Table<AccountId, u128>,
    governance_proposals: Table<u64, DexProposal>,
    votes_cast: Table<(u64, AccountId), bool>,
    liquidity_mining: LiquidityMiningCampaign,
    last_reward_block: Table<u64, u64>,
    /// Rejects an operation entered while another one is running.
    pub reentrancy_guard: ReentrancyGuard,
    admin_timelock_delay: u64,
    pending_admin_actions: Table<u64, PendingAdminAction>,
    pending_admin_action_counter: u64,
    competitions: crate::dex::competitions::CompetitionBook,
}

impl View for PropertyDex {
    type V = DexState;

    closed spec fn view(&self) -> DexState {
        DexState {
            admin: self.admin,
            pair_counter: self.pair_counter,
            order_counter: self.order_counter,
            cross_chain_trade_counter: self.cross_chain_trade_counter,
            proposal_counter: self.proposal_counter,
            pools: self.pools@,
            pair_lookup: self.pair_lookup@,
            positions: self.positions@,
            orders: self.orders@,
            order_book: self.order_book@,
            order_book_count: self.order_book_count@,
            analytics: self.analytics@,
            bridge_quotes: self.bridge_quotes@,
            cross_chain_trades: self.cross_chain_trades@,
            governance_symbol: self.governance_config.symbol,
            governance_total_supply: self.governance_config.total_supply,
            governance_emission_rate: self.governance_config.emission_rate,
            governance_quorum_bips: self.governance_config.quorum_bips,
            governance_balances: self.governance_balances@,
            governance_proposals: self.governance_proposals@,
            votes_cast: self.votes_cast@,
            mining_emission_rate: self.liquidity_mining.emission_rate,
            mining_start_block: self.liquidity_mining.start_block,
            mining_end_block: self.liquidity_mining.end_block,
            mining_symbol: self.liquidity_mining.reward_token_symbol,
            last_reward_block: self.last_reward_block@,
            locked: self.reentrancy_guard.locked,
            admin_timelock_delay: self.admin_timelock_delay,
            pending_admin_actions: self.pending_admin_actions@,
            pending_admin_action_counter: self.pending_admin_action_counter,
        }
    }
}

/// An empty position.
pub open spec fn empty_position() -> LiquidityPosition {
    LiquidityPosition {
        lp_shares: 0,
        reward_debt: 0,
        provided_base: 0,
        provided_quote: 0,
        pending_rewards: 0,
    }
}

/// The position of `account` in pool `pair_id`, empty when there is none.
pub open spec fn position_of(s: DexState, pair_id: u64, account: AccountId) -> LiquidityPosition {
    get_or(s.positions, (pair_id, account), empty_position())
}

/// Analytics of a pair with every figure at zero.
pub open spec fn empty_analytics(pair_id: u64) -> PairAnalytics {
    PairAnalytics {
        pair_id,
        last_price: 0,
        twap_price: 0,
        reference_price: 0,
        cumulative_volume: 0,
        trade_count: 0,
        best_bid: 0,
        best_ask: 0,
        volatility_bips: 0,
        last_updated: 0,
        high_24h: 0,
        low_24h: 0,
        volume_24h: 0,
        trade_count_24h: 0,
    }
}

/// The analytics of `pair_id`, all zero when there are none.
pub open spec fn analytics_of(s: DexState, pair_id: u64) -> PairAnalytics {
    get_or(s.analytics, pair_id, empty_analytics(pair_id))
}

/// The pool price: quote per base, in bips.
pub open spec fn pool_price(reserve_base: u128, reserve_quote: u128) -> u128 {
    smul(reserve_quote, BIPS_DENOMINATOR) / reserve_base
}

/// The pool with its last price recomputed from the reserves (kept when there is no base).
pub open spec fn priced(p: LiquidityPool) -> LiquidityPool {
    if p.reserve_base > 0 {
        LiquidityPool { last_price: pool_price(p.reserve_base, p.reserve_quote), ..p }
    } else {
        p
    }
}

/// The mid-price of the stored best bid and ask, or `fallback` when either is missing.
pub open spec fn reference_from_book(s: DexState, pair_id: u64, fallback: u128) -> u128 {
    let a = analytics_of(s, pair_id);
    if a.best_bid > 0 && a.best_ask > 0 {
        sadd(a.best_bid, a.best_ask) / 2
    } else {
        fallback
    }
}

/// Whether an order with this status still rests on the book.
pub open spec fn is_live(status: OrderStatus) -> bool {
    status == OrderStatus::Open || status == OrderStatus::PartiallyFilled || status
        == OrderStatus::Triggered
}

/// Best bid and best ask over the first `n` book slots of `pair_id`.
pub open spec fn best_quotes(s: DexState, pair_id: u64, n: nat) -> (u128, u128)
    decreases n,
{
    if n == 0 {
        (0, 0)
    } else {
        let q = best_quotes(s, pair_id, (n - 1) as nat);
        let idx = (n - 1) as u64;
        if !s.order_book.contains_key((pair_id, idx)) || !s.orders.contains_key(
            s.order_book[(pair_id, idx)],
        ) {
            q
        } else {
            let o = s.orders[s.order_book[(pair_id, idx)]];
            if !is_live(o.status) {
                q
            } else if o.side == OrderSide::Buy {
                if o.price > q.0 {
                    (o.price, q.1)
                } else {
                    q
                }
            } else {
                if q.1 == 0 || o.price < q.1 {
                    (q.0, o.price)
                } else {
                    q
                }
            }
        }
    }
}

/// The best quotes depend on the orders and the book alone.
pub proof fn lemma_best_quotes_from_book(s1: DexState, s2: DexState, pair_id: u64, n: nat)
    requires
        s1.orders == s2.orders,
        s1.order_book == s2.order_book,
    ensures
        best_quotes(s1, pair_id, n) == best_quotes(s2, pair_id, n),
    decreases n,
{
    if n > 0 {
        lemma_best_quotes_from_book(s1, s2, pair_id, (n - 1) as nat);
    }
}

/// The state after the best quotes of `pair_id` are recomputed from the book.
pub open spec fn refreshed(s: DexState, pair_id: u64) -> DexState {
    let q = best_quotes(s, pair_id, get_or(s.order_book_count, pair_id, 0u64) as nat);
    let a = analytics_of(s, pair_id);
    DexState {
        analytics: s.analytics.insert(
            pair_id,
            PairAnalytics {
                best_bid: q.0,
                best_ask: q.1,
                reference_price: reference_from_book(s, pair_id, a.last_price),
                ..a
            },
        ),
        ..s
    }
}

/// The state after rewards of pool `pair_id` are accrued up to `block`.
pub open spec fn accrued(s: DexState, pair_id: u64, block: u64) -> DexState {
    let p = s.pools[pair_id];
    if p.total_lp_shares == 0 {
        s
    } else {
        let last = get_or(s.last_reward_block, pair_id, block);
        let start = if last >= s.mining_start_block {
            last
        } else {
            s.mining_start_block
        };
        let end = if block <= s.mining_end_block {
            block
        } else {
            s.mining_end_block
        };
        if end <= start {
            DexState { last_reward_block: s.last_reward_block.insert(pair_id, block), ..s }
        } else {
            let total_reward = smul((end - start) as u128, s.mining_emission_rate);
            let increment = smul(total_reward, REWARD_PRECISION) / p.total_lp_shares;
            DexState {
                pools: s.pools.insert(
                    pair_id,
                    LiquidityPool { reward_index: sadd(p.reward_index, increment), ..p },
                ),
                last_reward_block: s.last_reward_block.insert(pair_id, block),
                ..s
            }
        }
    }
}

impl PropertyDex {
    /// The tables' invariants.
    pub closed spec fn wf(&self) -> bool {
        &&& self.pools.wf()
        &&& self.pair_lookup.wf()
        &&& self.positions.wf()
        &&& self.orders.wf()
        &&& self.order_book.wf()
        &&& self.order_book_count.wf()
        &&& self.analytics.wf()
        &&& self.bridge_quotes.wf()
        &&& self.cross_chain_trades.wf()
        &&& self.governance_balances.wf()
        &&& self.governance_proposals.wf()
        &&& self.votes_cast.wf()
        &&& self.last_reward_block.wf()
        &&& self.pending_admin_actions.wf()
        &&& self.competitions.wf()
        // Nothing in the exchange opens a trading competition, so the book never holds one.
        &&& self.competitions@.counter == 0
    }

    /// An exchange administered by `caller`, who receives the whole governance supply;
    /// liquidity mining emits `emission_rate` per block from block 0 on.
    pub fn new(
        caller: AccountId,
        governance_symbol: String,
        governance_supply: u128,
        emission_rate: u128,
        quorum_bips: u32,
    ) -> (d: PropertyDex)
        ensures
            d.wf(),
            d@.admin == caller,
            d@.pair_counter == 0 && d@.order_counter == 0 && d@.cross_chain_trade_counter == 0
                && d@.proposal_counter == 0 && d@.pending_admin_action_counter == 0,
            d@.pools == Map::<u64, LiquidityPool>::empty(),
            d@.pair_lookup == Map::<(u64, u64), u64>::empty(),
            d@.positions == Map::<(u64, AccountId), LiquidityPosition>::empty(),
            d@.orders == Map::<u64, TradingOrder>::empty(),
            d@.order_book == Map::<(u64, u64), u64>::empty(),
            d@.order_book_count == Map::<u64, u64>::empty(),
            d@.analytics == Map::<u64, PairAnalytics>::empty(),
            d@.bridge_quotes == Map::<u64, BridgeFeeQuote>::empty(),
            d@.cross_chain_trades == Map::<u64, CrossChainTradeIntent>::empty(),
            d@.governance_symbol == governance_symbol,
            d@.governance_total_supply == governance_supply,
            d@.governance_emission_rate == emission_rate,
            d@.governance_quorum_bips == quorum_bips,
            d@.governance_balances == Map::<AccountId, u128>::empty().insert(caller, governance_supply),
            d@.governance_proposals == Map::<u64, DexProposal>::empty(),
            d@.votes_cast == Map::<(u64, AccountId), bool>::empty(),
            d@.mining_emission_rate == emission_rate,
            d@.mining_start_block == 0,
            d@.mining_end_block == u64::MAX,
            d@.mining_symbol@ == seq!['G', 'O', 'V'],
            d@.last_reward_block == Map::<u64, u64>::empty(),
            !d@.locked,
            d@.admin_timelock_delay == 0,
            d@.pending_admin_actions == Map::<u64, PendingAdminAction>::empty(),
    {
        let symbol = "GOV".to_owned();
        proof {
            reveal_strlit("GOV");
        }
        let mut d = PropertyDex {
            admin: caller,
            pair_counter: 0,
            order_counter: 0,
            cross_chain_trade_counter: 0,
            proposal_counter: 0,
            pools: Table::new(),
            pair_lookup: Table::new(),
            positions: Table::new(),
            orders: Table::new(),
            order_book: Table::new(),
            order_book_count: Table::new(),
            analytics: Table::new(),
            bridge_quotes: Table::new(),
            cross_chain_trades: Table::new(),
            governance_config: GovernanceTokenConfig {
                symbol: governance_symbol,
                total_supply: governance_supply,
                emission_rate,
                quorum_bips,
            },
            governance_balances: Table::new(),
            governance_proposals: Table::new(),
            votes_cast: Table::new(),
            liquidity_mining: LiquidityMiningCampaign {
                emission_rate,
                start_block: 0,
                end_block: u64::MAX,
                reward_token_symbol: symbol,
            },
            last_reward_block: Table::new(),
            reentrancy_guard: ReentrancyGuard::new(),
            admin_timelock_delay: 0,
            pending_admin_actions: Table::new(),
            pending_admin_action_counter: 0,
            competitions: crate::dex::competitions::CompetitionBook::new(),
        };
        d.governance_balances.insert(caller, governance_supply);
        assert(d@.mining_symbol@ =~= seq!['G', 'O', 'V']);
        d
    }

    fn analytics_for(&self, pair_id: u64) -> (r: PairAnalytics)
        requires
            self.wf(),
        ensures
            r == analytics_of(self@, pair_id),
    {
        match self.analytics.get(&pair_id) {
            Some(a) => *a,
            None => PairAnalytics {
                pair_id,
                last_price: 0,
                twap_price: 0,
                reference_price: 0,
                cumulative_volume: 0,
                trade_count: 0,
                best_bid: 0,
                best_ask: 0,
                volatility_bips: 0,
                last_updated: 0,
                high_24h: 0,
                low_24h: 0,
                volume_24h: 0,
                trade_count_24h: 0,
            },
        }
    }

    fn position(&self, pair_id: u64, account: AccountId) -> (r: LiquidityPosition)
        requires
            self.wf(),
        ensures
            r == position_of(self@, pair_id, account),
    {
        match self.positions.get(&(pair_id, account)) {
            Some(p) => *p,
            None => LiquidityPosition {
                lp_shares: 0,
                reward_debt: 0,
                provided_base: 0,
                provided_quote: 0,
                pending_rewards: 0,
            },
        }
    }

    fn update_pool_price(pool: &mut LiquidityPool)
        ensures
            *final(pool) == priced(*old(pool)),
    {
        if pool.reserve_base > 0 {
            pool.last_price = sat_mul(pool.reserve_quote, BIPS_DENOMINATOR) / pool.reserve_base;
        }
    }

    fn reference_price_from_book(&self, pair_id: u64, fallback: u128) -> (r: u128)
        requires
            self.wf(),
        ensures
            r == reference_from_book(self@, pair_id, fallback),
    {
        let a = self.analytics_for(pair_id);
        if a.best_bid > 0 && a.best_ask > 0 {
            a.best_bid.saturating_add(a.best_ask) / 2
        } else {
            fallback
        }
    }

    fn refresh_best_quotes(&mut self, pair_id: u64)
        requires
            old(self).wf(),
        ensures
            final(self).wf(),
            final(self)@ == refreshed(old(self)@, pair_id),
    {
        let count = lookup_or(&self.order_book_count, &pair_id, 0u64);
        let mut best_bid: u128 = 0;
        let mut best_ask: u128 = 0;
        let mut idx: u64 = 0;
        while idx < count
            invariant
                self.wf(),
                self@ == old(self)@,
                count == get_or(self@.order_book_count, pair_id, 0u64),
                idx <= count,
                (best_bid, best_ask) == best_quotes(self@, pair_id, idx as nat),
            decreases count - idx,
        {
            match self.order_book.get(&(pair_id, idx)) {
                Some(oid) => {
                    match self.orders.get(oid) {
                        Some(o) => {
                            if o.status == OrderStatus::Open || o.status == OrderStatus::PartiallyFilled
                                || o.status == OrderStatus::Triggered {
                                match o.side {
                                    OrderSide::Buy => {
                                        if o.price > best_bid {
                                            best_bid = o.price;
                                        }
                                    },
                                    OrderSide::Sell => {
                                        if best_ask == 0 || o.price < best_ask {
                                            best_ask = o.price;
                                        }
                                    },
                                }
                            }
                        },
                        None => {},
                    }
                },
                None => {},
            }
            idx = idx + 1;
        }
        let mut a = self.analytics_for(pair_id);
        a.best_bid = best_bid;
        a.best_ask = best_ask;
        a.reference_price = self.reference_price_from_book(pair_id, a.last_price);
        self.analytics.insert(pair_id, a);
        assert(self@ =~= refreshed(old(self)@, pair_id));
    }

    fn accrue_rewards(&mut self, block: u32, pair_id: u64) -> (r: Result<(), DexError>)
        requires
            old(self).wf(),
        ensures
            final(self).wf(),
            old(self)@.pools.contains_key(pair_id) ==> r == Ok::<(), DexError>(()) && final(self)@
                == accrued(old(self)@, pair_id, block as u64),
            !old(self)@.pools.contains_key(pair_id) ==> r == Err::<(), DexError>(DexError::PoolNotFound)
                && final(self)@ == old(self)@,
    {
        let mut pool = match self.pools.get(&pair_id) {
            Some(p) => *p,
            None => return Err(DexError::PoolNotFound),
        };
        if pool.total_lp_shares == 0 {
            return Ok(());
        }
        let current_block = block as u64;
        let last_block = lookup_or(&self.last_reward_block, &pair_id, current_block);
        let start = if last_block >= self.liquidity_mining.start_block {
            last_block
        } else {
            self.liquidity_mining.start_block
        };
        let end = if current_block <= self.liquidity_mining.end_block {
            current_block
        } else {
            self.liquidity_mining.end_block
        };
        if end <= start {
            self.last_reward_block.insert(pair_id, current_block);
            assert(self@ =~= accrued(old(self)@, pair_id, block as u64));
            return Ok(());
        }
        let blocks = (end - start) as u128;
        let total_reward = sat_mul(blocks, self.liquidity_mining.emission_rate);
        let increment = sat_mul(total_reward, REWARD_PRECISION) / pool.total_lp_shares;
        pool.reward_index = pool.reward_index.saturating_add(increment);
        self.pools.insert(pair_id, pool);
        self.last_reward_block.insert(pair_id, current_block);
        assert(self@ =~= accrued(old(self)@, pair_id, block as u64));
        Ok(())
    }
}


/// Input left after the pool fee.
pub open spec fn fee_adjusted(amount_in: u128, fee_bips: u32) -> u128 {
    smul(amount_in, ssub(BIPS_DENOMINATOR, fee_bips as u128)) / BIPS_DENOMINATOR
}

/// The reserves a trade on `side` pays into and takes out of.
pub open spec fn reserves_for(p: LiquidityPool, side: OrderSide) -> (u128, u128) {
    match side {
        OrderSide::Sell => (p.reserve_base, p.reserve_quote),
        OrderSide::Buy => (p.reserve_quote, p.reserve_base),
    }
}

/// Constant-product output of a trade of `amount_in` on `side`, after the fee.
pub open spec fn amount_out_for(p: LiquidityPool, side: OrderSide, amount_in: u128) -> u128 {
    let f = fee_adjusted(amount_in, p.fee_bips);
    let (rin, rout) = reserves_for(p, side);
    sdiv(smul(f, rout), sadd(rin, f))
}

/// The pool after a trade that paid `amount_in` and took `amount_out`.
pub open spec fn traded_pool(p: LiquidityPool, side: OrderSide, amount_in: u128, amount_out: u128) -> LiquidityPool {
    let moved = match side {
        OrderSide::Sell => LiquidityPool {
            reserve_base: sadd(p.reserve_base, amount_in),
            reserve_quote: ssub(p.reserve_quote, amount_out),
            ..p
        },
        OrderSide::Buy => LiquidityPool {
            reserve_quote: sadd(p.reserve_quote, amount_in),
            reserve_base: ssub(p.reserve_base, amount_out),
            ..p
        },
    };
    priced(LiquidityPool { cumulative_volume: sadd(p.cumulative_volume, amount_in), ..moved })
}

/// The pair analytics after a pool trade at the pool's new price.
pub open spec fn traded_analytics(s: DexState, pair_id: u64, new_price: u128, amount_in: u128, timestamp: u64) -> PairAnalytics {
    let a = analytics_of(s, pair_id);
    PairAnalytics {
        last_price: new_price,
        twap_price: spec_weighted_average(new_price, a.twap_price, 2, 1),
        reference_price: reference_from_book(s, pair_id, new_price),
        cumulative_volume: sadd(a.cumulative_volume, amount_in),
        trade_count: sadd64(a.trade_count, 1),
        volatility_bips: spec_volatility_bips(a.last_price, new_price),
        last_updated: timestamp,
        high_24h: if a.high_24h == 0 || new_price > a.high_24h {
            new_price
        } else {
            a.high_24h
        },
        low_24h: if a.low_24h == 0 || new_price < a.low_24h {
            new_price
        } else {
            a.low_24h
        },
        volume_24h: sadd(a.volume_24h, amount_in),
        trade_count_24h: sadd64(a.trade_count_24h, 1),
        ..a
    }
}

/// Governance tokens earned by a trade of `amount_in`.
pub open spec fn trade_reward(s: DexState, amount_in: u128) -> u128 {
    smul(amount_in, s.mining_emission_rate) / 1_000
}

/// One pool trade without the order cascade: the state after it and its result.
pub open spec fn swap_once(
    s: DexState,
    caller: AccountId,
    block: u64,
    timestamp: u64,
    pair_id: u64,
    side: OrderSide,
    amount_in: u128,
    min_amount_out: u128,
) -> (DexState, Result<u128, DexError>) {
    if amount_in == 0 {
        (s, Err(DexError::InvalidOrder))
    } else if !s.pools.contains_key(pair_id) {
        (s, Err(DexError::PoolNotFound))
    } else {
        let s1 = accrued(s, pair_id, block);
        let p = s1.pools[pair_id];
        let (rin, rout) = reserves_for(p, side);
        if rin == 0 || rout == 0 {
            (s1, Err(DexError::InsufficientLiquidity))
        } else {
            let out = amount_out_for(p, side, amount_in);
            if out == 0 || out < min_amount_out {
                (s1, Err(DexError::SlippageExceeded))
            } else {
                let p2 = traded_pool(p, side, amount_in, out);
                let s2 = DexState { pools: s1.pools.insert(pair_id, p2), ..s1 };
                let s3 = DexState {
                    analytics: s2.analytics.insert(
                        pair_id,
                        traded_analytics(s2, pair_id, p2.last_price, amount_in, timestamp),
                    ),
                    ..s2
                };
                let s4 = refreshed(s3, pair_id);
                let reward = trade_reward(s4, amount_in);
                let s5 = DexState {
                    governance_balances: s4.governance_balances.insert(
                        caller,
                        sadd(get0(s4.governance_balances, caller), reward),
                    ),
                    governance_total_supply: sadd(s4.governance_total_supply, reward),
                    ..s4
                };
                (s5, Ok(out))
            }
        }
    }
}

/// The price the exchange quotes for `pair_id`: a 60/40 blend of the last trade
/// price and the larger of the book mid-price and the reference price.
pub open spec fn discovered_price(s: DexState, pair_id: u64) -> u128 {
    let a = analytics_of(s, pair_id);
    let mid = if a.best_bid > 0 && a.best_ask > 0 {
        sadd(a.best_bid, a.best_ask) / 2
    } else {
        a.last_price
    };
    let anchor = if mid >= a.reference_price {
        mid
    } else {
        a.reference_price
    };
    spec_weighted_average(a.last_price, anchor, 6, 4)
}

/// Whether `o` may execute at the discovered price: conditional orders once
/// triggered, limit orders when the price is at or better than their limit.
pub open spec fn executable(s: DexState, o: TradingOrder) -> bool {
    let d = discovered_price(s, o.pair_id);
    let trigger = match o.trigger_price {
        Some(t) => t,
        None => o.price,
    };
    match o.order_type {
        OrderType::Market | OrderType::Twap => true,
        OrderType::StopLoss => match o.side {
            OrderSide::Sell => d <= trigger,
            OrderSide::Buy => d >= trigger,
        },
        OrderType::TakeProfit => match o.side {
            OrderSide::Sell => d >= trigger,
            OrderSide::Buy => d <= trigger,
        },
        OrderType::Limit => match o.side {
            OrderSide::Buy => d <= o.price,
            OrderSide::Sell => d >= o.price,
        },
    }
}

/// Executing up to `requested` of order `order_id` against the pool, with or without
/// the cascade of limit orders after the trade.
pub open spec fn exec_order(
    s: DexState,
    caller: AccountId,
    block: u64,
    timestamp: u64,
    order_id: u64,
    requested: u128,
    cascade: bool,
) -> (DexState, Result<u128, DexError>)
    decreases (if cascade { 1int } else { 0int }), 0int, 0int,
{
    if !s.orders.contains_key(order_id) {
        (s, Err(DexError::OrderNotFound))
    } else {
        let o = s.orders[order_id];
        if !is_live(o.status) || !executable(s, o) {
            (s, Err(DexError::OrderNotExecutable))
        } else {
            let fill = if requested <= o.remaining_amount {
                requested
            } else {
                o.remaining_amount
            };
            if fill == 0 {
                (s, Err(DexError::InvalidOrder))
            } else {
                let (s1, r) = if cascade {
                    swap_full(s, caller, block, timestamp, o.pair_id, o.side, fill, 0)
                } else {
                    swap_once(s, caller, block, timestamp, o.pair_id, o.side, fill, 0)
                };
                match r {
                    Err(e) => (s1, Err(e)),
                    Ok(out) => {
                        let remaining = ssub(o.remaining_amount, fill);
                        let o2 = TradingOrder {
                            remaining_amount: remaining,
                            updated_at: timestamp,
                            status: if remaining == 0 {
                                OrderStatus::Filled
                            } else {
                                OrderStatus::PartiallyFilled
                            },
                            ..o
                        };
                        let s2 = DexState { orders: s1.orders.insert(order_id, o2), ..s1 };
                        (refreshed(s2, o.pair_id), Ok(out))
                    },
                }
            }
        }
    }
}

/// Ids of the open limit orders of `pair_id` in the first `n` book slots that are
/// executable in `s`, in book order.
pub open spec fn limit_candidates(s: DexState, pair_id: u64, n: nat) -> Seq<u64>
    decreases n,
{
    if n == 0 {
        Seq::empty()
    } else {
        let c = limit_candidates(s, pair_id, (n - 1) as nat);
        let idx = (n - 1) as u64;
        if !s.order_book.contains_key((pair_id, idx)) || !s.orders.contains_key(
            s.order_book[(pair_id, idx)],
        ) {
            c
        } else {
            let oid = s.order_book[(pair_id, idx)];
            let o = s.orders[oid];
            if o.order_type == OrderType::Limit && (o.status == OrderStatus::Open || o.status
                == OrderStatus::PartiallyFilled) && executable(s, o) {
                c.push(oid)
            } else {
                c
            }
        }
    }
}

/// The state after each candidate order, in turn, that is still open with something
/// left is executed for its remaining amount (without a further cascade).
pub open spec fn run_orders(s: DexState, caller: AccountId, block: u64, timestamp: u64, ids: Seq<u64>) -> DexState
    decreases 0int, 1int, ids.len(),
{
    if ids.len() == 0 {
        s
    } else {
        let prev = run_orders(s, caller, block, timestamp, ids.drop_last());
        let id = ids.last();
        if prev.orders.contains_key(id) && prev.orders[id].remaining_amount > 0 && (
        prev.orders[id].status == OrderStatus::Open || prev.orders[id].status
            == OrderStatus::PartiallyFilled) {
            exec_order(
                prev,
                caller,
                block,
                timestamp,
                id,
                prev.orders[id].remaining_amount,
                false,
            ).0
        } else {
            prev
        }
    }
}

/// A pool trade followed by the execution of the limit orders it made executable.
pub open spec fn swap_full(
    s: DexState,
    caller: AccountId,
    block: u64,
    timestamp: u64,
    pair_id: u64,
    side: OrderSide,
    amount_in: u128,
    min_amount_out: u128,
) -> (DexState, Result<u128, DexError>)
    decreases 0int, 2int, 0int,
{
    let (s1, r) = swap_once(s, caller, block, timestamp, pair_id, side, amount_in, min_amount_out);
    match r {
        Err(e) => (s1, Err(e)),
        Ok(out) => {
            let ids = limit_candidates(s1, pair_id, get_or(s1.order_book_count, pair_id, 0u64) as nat);
            (run_orders(s1, caller, block, timestamp, ids), Ok(out))
        },
    }
}

impl PropertyDex {
    fn discover_price_internal(&self, pair_id: u64) -> (r: u128)
        requires
            self.wf(),
        ensures
            r == discovered_price(self@, pair_id),
    {
        let a = self.analytics_for(pair_id);
        let midpoint = if a.best_bid > 0 && a.best_ask > 0 {
            a.best_bid.saturating_add(a.best_ask) / 2
        } else {
            a.last_price
        };
        let anchor = if midpoint >= a.reference_price {
            midpoint
        } else {
            a.reference_price
        };
        weighted_average(a.last_price, anchor, 6, 4)
    }

    /// The exchange's quoted price for `pair_id` (see [`discovered_price`]).
    pub fn discover_price(&self, pair_id: u64) -> (r: Result<u128, DexError>)
        requires
            self.wf(),
        ensures
            r == Ok::<u128, DexError>(discovered_price(self@, pair_id)),
    {
        Ok(self.discover_price_internal(pair_id))
    }

    fn is_order_executable(&self, o: &TradingOrder) -> (r: bool)
        requires
            self.wf(),
        ensures
            r == executable(self@, *o),
    {
        let d = self.discover_price_internal(o.pair_id);
        let trigger = match o.trigger_price {
            Some(t) => t,
            None => o.price,
        };
        match o.order_type {
            OrderType::Market => true,
            OrderType::Twap => true,
            OrderType::StopLoss => match o.side {
                OrderSide::Sell => d <= trigger,
                OrderSide::Buy => d >= trigger,
            },
            OrderType::TakeProfit => match o.side {
                OrderSide::Sell => d >= trigger,
                OrderSide::Buy => d <= trigger,
            },
            OrderType::Limit => match o.side {
                OrderSide::Buy => d <= o.price,
                OrderSide::Sell => d >= o.price,
            },
        }
    }

    #[verifier::spinoff_prover]
    #[verifier::rlimit(50)]
    fn swap_once(
        &mut self,
        caller: AccountId,
        block: u32,
        timestamp: u64,
        pair_id: u64,
        side: OrderSide,
        amount_in: u128,
        min_amount_out: u128,
    ) -> (r: Result<u128, DexError>)
        requires
            old(self).wf(),
        ensures
            final(self).wf(),
            final(self)@ == swap_once(
                old(self)@,
                caller,
                block as u64,
                timestamp,
                pair_id,
                side,
                amount_in,
                min_amount_out,
            ).0,
            r == swap_once(
                old(self)@,
                caller,
                block as u64,
                timestamp,
                pair_id,
                side,
                amount_in,
                min_amount_out,
            ).1,
    {
        if amount_in == 0 {
            return Err(DexError::InvalidOrder);
        }
        match self.accrue_rewards(block, pair_id) {
            Ok(()) => {},
            Err(e) => return Err(e),
        }
        let ghost s1 = self@;
        let mut pool = match self.pools.get(&pair_id) {
            Some(p) => *p,
            None => return Err(DexError::PoolNotFound),
        };
        let fee_adjusted_in = sat_mul(amount_in, BIPS_DENOMINATOR.saturating_sub(pool.fee_bips as u128))
            / BIPS_DENOMINATOR;
        let (reserve_in, reserve_out) = match side {
            OrderSide::Sell => (pool.reserve_base, pool.reserve_quote),
            OrderSide::Buy => (pool.reserve_quote, pool.reserve_base),
        };
        if reserve_in == 0 || reserve_out == 0 {
            return Err(DexError::InsufficientLiquidity);
        }
        let amount_out = div_or_zero(sat_mul(fee_adjusted_in, reserve_out), reserve_in.saturating_add(fee_adjusted_in));
        if amount_out == 0 || amount_out < min_amount_out {
            return Err(DexError::SlippageExceeded);
        }
        match side {
            OrderSide::Sell => {
                pool.reserve_base = pool.reserve_base.saturating_add(amount_in);
                pool.reserve_quote = pool.reserve_quote.saturating_sub(amount_out);
            },
            OrderSide::Buy => {
                pool.reserve_quote = pool.reserve_quote.saturating_add(amount_in);
                pool.reserve_base = pool.reserve_base.saturating_sub(amount_out);
            },
        }
        pool.cumulative_volume = pool.cumulative_volume.saturating_add(amount_in);
        Self::update_pool_price(&mut pool);
        self.pools.insert(pair_id, pool);
        let ghost s2 = self@;
        let mut a = self.analytics_for(pair_id);
        let previous = a.last_price;
        a.last_price = pool.last_price;
        a.twap_price = weighted_average(a.last_price, a.twap_price, 2, 1);
        a.reference_price = self.reference_price_from_book(pair_id, a.last_price);
        a.cumulative_volume = a.cumulative_volume.saturating_add(amount_in);
        a.trade_count = a.trade_count.saturating_add(1);
        a.volatility_bips = volatility_bips(previous, a.last_price);
        a.last_updated = timestamp;
        if a.high_24h == 0 || pool.last_price > a.high_24h {
            a.high_24h = pool.last_price;
        }
        if a.low_24h == 0 || pool.last_price < a.low_24h {
            a.low_24h = pool.last_price;
        }
        a.volume_24h = a.volume_24h.saturating_add(amount_in);
        a.trade_count_24h = a.trade_count_24h.saturating_add(1);
        assert(a == traded_analytics(s2, pair_id, pool.last_price, amount_in, timestamp));
        self.analytics.insert(pair_id, a);
        self.refresh_best_quotes(pair_id);
        let reward = sat_mul(amount_in, self.liquidity_mining.emission_rate) / 1_000;
        let gov = lookup_or(&self.governance_balances, &caller, 0u128);
        self.governance_balances.insert(caller, gov.saturating_add(reward));
        self.governance_config.total_supply = self.governance_config.total_supply.saturating_add(reward);
        assert(self@ =~= swap_once(
            old(self)@,
            caller,
            block as u64,
            timestamp,
            pair_id,
            side,
            amount_in,
            min_amount_out,
        ).0);
        Ok(amount_out)
    }
}


impl PropertyDex {
    fn finish_order_fill(&mut self, timestamp: u64, order_id: u64, o: TradingOrder, fill: u128)
        requires
            old(self).wf(),
        ensures
            final(self).wf(),
            final(self)@ == refreshed(
                DexState {
                    orders: old(self)@.orders.insert(
                        order_id,
                        TradingOrder {
                            remaining_amount: ssub(o.remaining_amount, fill),
                            updated_at: timestamp,
                            status: if ssub(o.remaining_amount, fill) == 0 {
                                OrderStatus::Filled
                            } else {
                                OrderStatus::PartiallyFilled
                            },
                            ..o
                        },
                    ),
                    ..old(self)@
                },
                o.pair_id,
            ),
    {
        let mut order = o;
        order.remaining_amount = order.remaining_amount.saturating_sub(fill);
        order.updated_at = timestamp;
        order.status = if order.remaining_amount == 0 {
            OrderStatus::Filled
        } else {
            OrderStatus::PartiallyFilled
        };
        self.orders.insert(order_id, order);
        self.refresh_best_quotes(o.pair_id);
    }

    fn execute_order_once(&mut self, caller: AccountId, block: u32, timestamp: u64, order_id: u64, requested: u128) -> (r:
        Result<u128, DexError>)
        requires
            old(self).wf(),
        ensures
            final(self).wf(),
            final(self)@ == exec_order(old(self)@, caller, block as u64, timestamp, order_id, requested, false).0,
            r == exec_order(old(self)@, caller, block as u64, timestamp, order_id, requested, false).1,
    {
        let o = match self.orders.get(&order_id) {
            Some(o) => *o,
            None => return Err(DexError::OrderNotFound),
        };
        if !(o.status == OrderStatus::Open || o.status == OrderStatus::PartiallyFilled || o.status
            == OrderStatus::Triggered) {
            return Err(DexError::OrderNotExecutable);
        }
        if !self.is_order_executable(&o) {
            return Err(DexError::OrderNotExecutable);
        }
        let fill = if requested <= o.remaining_amount {
            requested
        } else {
            o.remaining_amount
        };
        if fill == 0 {
            return Err(DexError::InvalidOrder);
        }
        let out = match self.swap_once(caller, block, timestamp, o.pair_id, o.side, fill, 0) {
            Ok(v) => v,
            Err(e) => return Err(e),
        };
        self.update_trade_competition_score(o.pair_id, caller, out);
        self.finish_order_fill(timestamp, order_id, o, fill);
        Ok(out)
    }

    fn collect_limit_candidates(&self, pair_id: u64) -> (r: Vec<u64>)
        requires
            self.wf(),
        ensures
            r@ == limit_candidates(self@, pair_id, get_or(self@.order_book_count, pair_id, 0u64) as nat),
    {
        let count = lookup_or(&self.order_book_count, &pair_id, 0u64);
        let mut ids: Vec<u64> = Vec::new();
        let mut idx: u64 = 0;
        while idx < count
            invariant
                self.wf(),
                count == get_or(self@.order_book_count, pair_id, 0u64),
                idx <= count,
                ids@ == limit_candidates(self@, pair_id, idx as nat),
            decreases count - idx,
        {
            match self.order_book.get(&(pair_id, idx)) {
                Some(oid) => {
                    match self.orders.get(oid) {
                        Some(o) => {
                            if o.order_type == OrderType::Limit && (o.status == OrderStatus::Open
                                || o.status == OrderStatus::PartiallyFilled) && self.is_order_executable(o) {
                                ids.push(*oid);
                            }
                        },
                        None => {},
                    }
                },
                None => {},
            }
            idx = idx + 1;
        }
        ids
    }

    fn process_executable_limit_orders(&mut self, caller: AccountId, block: u32, timestamp: u64, pair_id: u64)
        requires
            old(self).wf(),
        ensures
            final(self).wf(),
            final(self)@ == run_orders(
                old(self)@,
                caller,
                block as u64,
                timestamp,
                limit_candidates(
                    old(self)@,
                    pair_id,
                    get_or(old(self)@.order_book_count, pair_id, 0u64) as nat,
                ),
            ),
    {
        let ids = self.collect_limit_candidates(pair_id);
        let ghost s0 = self@;
        let n = ids.len();
        let mut i: usize = 0;
        while i < n
            invariant
                self.wf(),
                n == ids@.len(),
                i <= n,
                self@ == run_orders(s0, caller, block as u64, timestamp, ids@.subrange(0, i as int)),
            decreases n - i,
        {
            let id = ids[i];
            proof {
                let pre = ids@.subrange(0, i as int);
                let post = ids@.subrange(0, i + 1);
                assert(post.drop_last() =~= pre);
                assert(post.last() == id);
            }
            let current = match self.orders.get(&id) {
                Some(o) => Some(*o),
                None => None,
            };
            match current {
                Some(o) => {
                    if o.remaining_amount > 0 && (o.status == OrderStatus::Open || o.status
                        == OrderStatus::PartiallyFilled) {
                        let _ = self.execute_order_once(caller, block, timestamp, id, o.remaining_amount);
                    }
                },
                None => {},
            }
            i = i + 1;
        }
        assert(ids@.subrange(0, n as int) =~= ids@);
    }

    fn swap(
        &mut self,
        caller: AccountId,
        block: u32,
        timestamp: u64,
        pair_id: u64,
        side: OrderSide,
        amount_in: u128,
        min_amount_out: u128,
    ) -> (r: Result<u128, DexError>)
        requires
            old(self).wf(),
        ensures
            final(self).wf(),
            final(self)@ == swap_full(
                old(self)@,
                caller,
                block as u64,
                timestamp,
                pair_id,
                side,
                amount_in,
                min_amount_out,
            ).0,
            r == swap_full(
                old(self)@,
                caller,
                block as u64,
                timestamp,
                pair_id,
                side,
                amount_in,
                min_amount_out,
            ).1,
    {
        let out = match self.swap_once(caller, block, timestamp, pair_id, side, amount_in, min_amount_out) {
            Ok(v) => v,
            Err(e) => return Err(e),
        };
        self.update_trade_competition_score(pair_id, caller, out);
        self.process_executable_limit_orders(caller, block, timestamp, pair_id);
        Ok(out)
    }

    fn execute_order_core(&mut self, caller: AccountId, block: u32, timestamp: u64, order_id: u64, requested: u128) -> (r:
        Result<u128, DexError>)
        requires
            old(self).wf(),
        ensures
            final(self).wf(),
            final(self)@ == exec_order(old(self)@, caller, block as u64, timestamp, order_id, requested, true).0,
            r == exec_order(old(self)@, caller, block as u64, timestamp, order_id, requested, true).1,
    {
        let o = match self.orders.get(&order_id) {
            Some(o) => *o,
            None => return Err(DexError::OrderNotFound),
        };
        if !(o.status == OrderStatus::Open || o.status == OrderStatus::PartiallyFilled || o.status
            == OrderStatus::Triggered) {
            return Err(DexError::OrderNotExecutable);
        }
        if !self.is_order_executable(&o) {
            return Err(DexError::OrderNotExecutable);
        }
        let fill = if requested <= o.remaining_amount {
            requested
        } else {
            o.remaining_amount
        };
        if fill == 0 {
            return Err(DexError::InvalidOrder);
        }
        let out = match self.swap(caller, block, timestamp, o.pair_id, o.side, fill, 0) {
            Ok(v) => v,
            Err(e) => return Err(e),
        };
        self.finish_order_fill(timestamp, order_id, o, fill);
        Ok(out)
    }

    /// Sells `amount_in` base for at least `min_quote_out` quote, then executes the limit
    /// orders the new price makes executable.
    pub fn swap_exact_base_for_quote(
        &mut self,
        caller: AccountId,
        block: u32,
        timestamp: u64,
        pair_id: u64,
        amount_in: u128,
        min_quote_out: u128,
    ) -> (r: Result<u128, DexError>)
        requires
            old(self).wf(),
        ensures
            final(self).wf(),
            old(self)@.locked ==> r == Err::<u128, DexError>(DexError::ReentrantCall) && final(self)@
                == old(self)@,
            !old(self)@.locked ==> final(self)@ == swap_full(
                old(self)@,
                caller,
                block as u64,
                timestamp,
                pair_id,
                OrderSide::Sell,
                amount_in,
                min_quote_out,
            ).0 && r == swap_full(
                old(self)@,
                caller,
                block as u64,
                timestamp,
                pair_id,
                OrderSide::Sell,
                amount_in,
                min_quote_out,
            ).1,
            !old(self)@.locked && amount_in == 0 ==> r == Err::<u128, DexError>(DexError::InvalidOrder)
                && final(self)@ == old(self)@,
            !old(self)@.locked && swap_unsaturated(
                old(self)@,
                caller,
                block as u64,
                timestamp,
                pair_id,
                OrderSide::Sell,
                amount_in,
                min_quote_out,
            ) ==> final(self)@.pools.contains_key(pair_id) && pool_k(final(self)@, pair_id) >= pool_k(
                old(self)@,
                pair_id,
            ),
    {
        if self.reentrancy_guard.locked {
            return Err(DexError::ReentrantCall);
        }
        let ghost s0 = self@;
        proof {
            lemma_zero_swap_rejected(s0, caller, block as u64, timestamp, pair_id, OrderSide::Sell, min_quote_out);
            if swap_unsaturated(s0, caller, block as u64, timestamp, pair_id, OrderSide::Sell, amount_in, min_quote_out) {
                lemma_full_swap_keeps_k(s0, caller, block as u64, timestamp, pair_id, OrderSide::Sell, amount_in, min_quote_out);
            }
        }
        self.swap(caller, block, timestamp, pair_id, OrderSide::Sell, amount_in, min_quote_out)
    }

    /// Buys base with `amount_in` quote for at least `min_base_out` base, then executes the
    /// limit orders the new price makes executable.
    pub fn swap_exact_quote_for_base(
        &mut self,
        caller: AccountId,
        block: u32,
        timestamp: u64,
        pair_id: u64,
        amount_in: u128,
        min_base_out: u128,
    ) -> (r: Result<u128, DexError>)
        requires
            old(self).wf(),
        ensures
            final(self).wf(),
            old(self)@.locked ==> r == Err::<u128, DexError>(DexError::ReentrantCall) && final(self)@
                == old(self)@,
            !old(self)@.locked ==> final(self)@ == swap_full(
                old(self)@,
                caller,
                block as u64,
                timestamp,
                pair_id,
                OrderSide::Buy,
                amount_in,
                min_base_out,
            ).0 && r == swap_full(
                old(self)@,
                caller,
                block as u64,
                timestamp,
                pair_id,
                OrderSide::Buy,
                amount_in,
                min_base_out,
            ).1,
            !old(self)@.locked && amount_in == 0 ==> r == Err::<u128, DexError>(DexError::InvalidOrder)
                && final(self)@ == old(self)@,
            !old(self)@.locked && swap_unsaturated(
                old(self)@,
                caller,
                block as u64,
                timestamp,
                pair_id,
                OrderSide::Buy,
                amount_in,
                min_base_out,
            ) ==> final(self)@.pools.contains_key(pair_id) && pool_k(final(self)@, pair_id) >= pool_k(
                old(self)@,
                pair_id,
            ),
    {
        if self.reentrancy_guard.locked {
            return Err(DexError::ReentrantCall);
        }
        let ghost s0 = self@;
        proof {
            lemma_zero_swap_rejected(s0, caller, block as u64, timestamp, pair_id, OrderSide::Buy, min_base_out);
            if swap_unsaturated(s0, caller, block as u64, timestamp, pair_id, OrderSide::Buy, amount_in, min_base_out) {
                lemma_full_swap_keeps_k(s0, caller, block as u64, timestamp, pair_id, OrderSide::Buy, amount_in, min_base_out);
            }
        }
        self.swap(caller, block, timestamp, pair_id, OrderSide::Buy, amount_in, min_base_out)
    }

    /// Executes up to `requested` of an order whose conditions hold at the quoted price.
    pub fn execute_order(
        &mut self,
        caller: AccountId,
        block: u32,
        timestamp: u64,
        order_id: u64,
        requested_amount: u128,
    ) -> (r: Result<u128, DexError>)
        requires
            old(self).wf(),
        ensures
            final(self).wf(),
            old(self)@.locked ==> r == Err::<u128, DexError>(DexError::ReentrantCall) && final(self)@
                == old(self)@,
            !old(self)@.locked ==> final(self)@ == exec_order(
                old(self)@,
                caller,
                block as u64,
                timestamp,
                order_id,
                requested_amount,
                true,
            ).0 && r == exec_order(
                old(self)@,
                caller,
                block as u64,
                timestamp,
                order_id,
                requested_amount,
                true,
            ).1,
    {
        if self.reentrancy_guard.locked {
            return Err(DexError::ReentrantCall);
        }
        self.execute_order_core(caller, block, timestamp, order_id, requested_amount)
    }
}

/// A zero-amount trade is always refused, whichever way it goes.
pub proof fn lemma_zero_swap_rejected(
    s: DexState,
    caller: AccountId,
    block: u64,
    timestamp: u64,
    pair_id: u64,
    side: OrderSide,
    min_amount_out: u128,
)
    ensures
        swap_full(s, caller, block, timestamp, pair_id, side, 0, min_amount_out).1 == Err::<u128, DexError>(
            DexError::InvalidOrder,
        ),
        swap_full(s, caller, block, timestamp, pair_id, side, 0, min_amount_out).0 == s,
{
}

/// Asking for more than the pool can pay is refused: a trade whose minimum output
/// exceeds the constant-product output fails with `SlippageExceeded` (once the pool
/// exists and has both reserves).
pub proof fn lemma_slippage_guard(
    s: DexState,
    caller: AccountId,
    block: u64,
    timestamp: u64,
    pair_id: u64,
    side: OrderSide,
    amount_in: u128,
    min_amount_out: u128,
)
    requires
        amount_in > 0,
        s.pools.contains_key(pair_id),
        reserves_for(accrued(s, pair_id, block).pools[pair_id], side).0 > 0,
        reserves_for(accrued(s, pair_id, block).pools[pair_id], side).1 > 0,
        min_amount_out > amount_out_for(accrued(s, pair_id, block).pools[pair_id], side, amount_in),
    ensures
        swap_full(s, caller, block, timestamp, pair_id, side, amount_in, min_amount_out).1 == Err::<
            u128,
            DexError,
        >(DexError::SlippageExceeded),
{
}


/// The first check pool creation fails, if any.
pub open spec fn create_pool_error(
    s: DexState,
    base_token: TokenId,
    quote_token: TokenId,
    fee_bips: u32,
    initial_base: u128,
    initial_quote: u128,
) -> Option<DexError> {
    if s.locked {
        Some(DexError::ReentrantCall)
    } else if base_token == quote_token || initial_base == 0 || initial_quote == 0 || fee_bips >= 1_000 {
        Some(DexError::InvalidPair)
    } else if get_or(
        s.pair_lookup,
        crate::math::spec_ordered_pair(base_token, quote_token),
        0u64,
    ) != 0 {
        Some(DexError::InvalidPair)
    } else {
        None
    }
}

/// The state after a new pool is opened by `caller`, who receives LP shares equal to the
/// floor square root of the product of the two deposits.
pub open spec fn create_pool_next(
    s: DexState,
    caller: AccountId,
    block: u64,
    timestamp: u64,
    base_token: TokenId,
    quote_token: TokenId,
    fee_bips: u32,
    initial_base: u128,
    initial_quote: u128,
) -> DexState {
    let pair_id = (s.pair_counter + 1) as u64;
    let last_price = smul(initial_quote, BIPS_DENOMINATOR) / initial_base;
    let minted = floor_sqrt(smul(initial_base, initial_quote) as int) as u128;
    DexState {
        pair_counter: pair_id,
        pools: s.pools.insert(
            pair_id,
            LiquidityPool {
                pair_id,
                base_token,
                quote_token,
                reserve_base: initial_base,
                reserve_quote: initial_quote,
                total_lp_shares: minted,
                fee_bips,
                reward_index: 0,
                cumulative_volume: 0,
                last_price,
                is_active: true,
            },
        ),
        pair_lookup: s.pair_lookup.insert(crate::math::spec_ordered_pair(base_token, quote_token), pair_id),
        positions: s.positions.insert(
            (pair_id, caller),
            LiquidityPosition {
                lp_shares: minted,
                reward_debt: 0,
                provided_base: initial_base,
                provided_quote: initial_quote,
                pending_rewards: 0,
            },
        ),
        analytics: s.analytics.insert(
            pair_id,
            PairAnalytics {
                pair_id,
                last_price,
                twap_price: last_price,
                reference_price: last_price,
                cumulative_volume: 0,
                trade_count: 0,
                best_bid: 0,
                best_ask: 0,
                volatility_bips: 0,
                last_updated: timestamp,
                high_24h: last_price,
                low_24h: last_price,
                volume_24h: 0,
                trade_count_24h: 0,
            },
        ),
        last_reward_block: s.last_reward_block.insert(pair_id, block),
        ..s
    }
}

/// LP shares minted for a deposit into pool `p`: the floor square root of the product
/// for an empty pool, else the smaller of the two proportional amounts.
pub open spec fn minted_shares(p: LiquidityPool, amount_base: u128, amount_quote: u128) -> u128 {
    if p.total_lp_shares == 0 {
        floor_sqrt(smul(amount_base, amount_quote) as int) as u128
    } else {
        let b = sdiv(smul(amount_base, p.total_lp_shares), p.reserve_base);
        let q = sdiv(smul(amount_quote, p.total_lp_shares), p.reserve_quote);
        if b <= q {
            b
        } else {
            q
        }
    }
}

/// A deposit into a pool that already has LP shares never mints more shares than the
/// deposit's proportional part of either reserve, and (when nothing saturates) mints the
/// most that both sides allow.
pub proof fn lemma_deposit_mints_proportionally(p: LiquidityPool, amount_base: u128, amount_quote: u128)
    requires
        p.total_lp_shares > 0,
        p.reserve_base > 0,
        p.reserve_quote > 0,
    ensures
        ({
            let m = minted_shares(p, amount_base, amount_quote);
            &&& m * p.reserve_base <= amount_base * p.total_lp_shares
            &&& m * p.reserve_quote <= amount_quote * p.total_lp_shares
            &&& amount_base * p.total_lp_shares <= u128::MAX && amount_quote * p.total_lp_shares <= u128::MAX ==> (m
                + 1) * p.reserve_base > amount_base * p.total_lp_shares || (m + 1) * p.reserve_quote > amount_quote
                * p.total_lp_shares
        }),
{
    crate::math::lemma_min_proportional(
        amount_base,
        p.reserve_base,
        amount_quote,
        p.reserve_quote,
        p.total_lp_shares,
        minted_shares(p, amount_base, amount_quote),
    );
}

/// The state after `caller` deposits into pool `pair_id` (rewards already accrued in `s`).
pub open spec fn add_liquidity_next(
    s: DexState,
    caller: AccountId,
    timestamp: u64,
    pair_id: u64,
    amount_base: u128,
    amount_quote: u128,
) -> DexState {
    let p = s.pools[pair_id];
    let minted = minted_shares(p, amount_base, amount_quote);
    let p2 = priced(
        LiquidityPool {
            reserve_base: sadd(p.reserve_base, amount_base),
            reserve_quote: sadd(p.reserve_quote, amount_quote),
            total_lp_shares: sadd(p.total_lp_shares, minted),
            ..p
        },
    );
    let pos = position_of(s, pair_id, caller);
    let accrued_rewards = spec_pending_from_indices(pos.lp_shares, p2.reward_index, pos.reward_debt);
    let pos2 = LiquidityPosition {
        pending_rewards: sadd(pos.pending_rewards, accrued_rewards),
        reward_debt: spec_scaled_reward_debt(sadd(pos.lp_shares, minted), p2.reward_index),
        lp_shares: sadd(pos.lp_shares, minted),
        provided_base: sadd(pos.provided_base, amount_base),
        provided_quote: sadd(pos.provided_quote, amount_quote),
    };
    DexState {
        pools: s.pools.insert(pair_id, p2),
        positions: s.positions.insert((pair_id, caller), pos2),
        analytics: s.analytics.insert(
            pair_id,
            PairAnalytics { last_updated: timestamp, ..analytics_of(s, pair_id) },
        ),
        ..s
    }
}

/// Base and quote paid out for burning `shares` of pool `p`.
pub open spec fn withdrawal(p: LiquidityPool, shares: u128) -> (u128, u128) {
    (sdiv(smul(shares, p.reserve_base), p.total_lp_shares), sdiv(smul(shares, p.reserve_quote), p.total_lp_shares))
}

/// The state after `caller` burns `shares` of pool `pair_id` (rewards already accrued in `s`).
pub open spec fn remove_liquidity_next(s: DexState, caller: AccountId, pair_id: u64, shares: u128) -> DexState {
    let p = s.pools[pair_id];
    let (base_out, quote_out) = withdrawal(p, shares);
    let p2 = priced(
        LiquidityPool {
            reserve_base: ssub(p.reserve_base, base_out),
            reserve_quote: ssub(p.reserve_quote, quote_out),
            total_lp_shares: ssub(p.total_lp_shares, shares),
            ..p
        },
    );
    let pos = position_of(s, pair_id, caller);
    let accrued_rewards = spec_pending_from_indices(pos.lp_shares, p2.reward_index, pos.reward_debt);
    let lp = ssub(pos.lp_shares, shares);
    DexState {
        pools: s.pools.insert(pair_id, p2),
        positions: s.positions.insert(
            (pair_id, caller),
            LiquidityPosition {
                pending_rewards: sadd(pos.pending_rewards, accrued_rewards),
                lp_shares: lp,
                reward_debt: spec_scaled_reward_debt(lp, p2.reward_index),
                ..pos
            },
        ),
        ..s
    }
}

/// Rewards `account` could claim from pool `pair_id` in `s`.
pub open spec fn claimable(s: DexState, pair_id: u64, account: AccountId) -> u128 {
    let p = s.pools[pair_id];
    let pos = position_of(s, pair_id, account);
    sadd(pos.pending_rewards, spec_pending_from_indices(pos.lp_shares, p.reward_index, pos.reward_debt))
}

impl PropertyDex {
    /// Opens a pool for a token pair (either order of the pair may exist only once) with
    /// initial reserves from `caller`, who receives the first LP shares.
    pub fn create_pool(
        &mut self,
        caller: AccountId,
        block: u32,
        timestamp: u64,
        base_token: TokenId,
        quote_token: TokenId,
        fee_bips: u32,
        initial_base: u128,
        initial_quote: u128,
    ) -> (r: Result<u64, DexError>)
        requires
            old(self).wf(),
            create_pool_error(old(self)@, base_token, quote_token, fee_bips, initial_base, initial_quote)
                is None ==> old(self)@.pair_counter < u64::MAX,
        ensures
            final(self).wf(),
            match create_pool_error(old(self)@, base_token, quote_token, fee_bips, initial_base, initial_quote) {
                Some(e) => r == Err::<u64, DexError>(e) && final(self)@ == old(self)@,
                None => r == Ok::<u64, DexError>((old(self)@.pair_counter + 1) as u64) && final(self)@
                    == create_pool_next(
                    old(self)@,
                    caller,
                    block as u64,
                    timestamp,
                    base_token,
                    quote_token,
                    fee_bips,
                    initial_base,
                    initial_quote,
                ),
            },
    {
        if self.reentrancy_guard.locked {
            return Err(DexError::ReentrantCall);
        }
        if base_token == quote_token || initial_base == 0 || initial_quote == 0 || fee_bips >= 1_000 {
            return Err(DexError::InvalidPair);
        }
        let key = crate::math::ordered_pair(base_token, quote_token);
        if lookup_or(&self.pair_lookup, &key, 0u64) != 0 {
            return Err(DexError::InvalidPair);
        }
        self.pair_counter = self.pair_counter + 1;
        let pair_id = self.pair_counter;
        let last_price = sat_mul(initial_quote, BIPS_DENOMINATOR) / initial_base;
        let minted = integer_sqrt(sat_mul(initial_base, initial_quote));
        let pool = LiquidityPool {
            pair_id,
            base_token,
            quote_token,
            reserve_base: initial_base,
            reserve_quote: initial_quote,
            total_lp_shares: minted,
            fee_bips,
            reward_index: 0,
            cumulative_volume: 0,
            last_price,
            is_active: true,
        };
        self.pools.insert(pair_id, pool);
        self.pair_lookup.insert(key, pair_id);
        self.positions.insert(
            (pair_id, caller),
            LiquidityPosition {
                lp_shares: minted,
                reward_debt: 0,
                provided_base: initial_base,
                provided_quote: initial_quote,
                pending_rewards: 0,
            },
        );
        self.analytics.insert(
            pair_id,
            PairAnalytics {
                pair_id,
                last_price,
                twap_price: last_price,
                reference_price: last_price,
                cumulative_volume: 0,
                trade_count: 0,
                best_bid: 0,
                best_ask: 0,
                volatility_bips: 0,
                last_updated: timestamp,
                high_24h: last_price,
                low_24h: last_price,
                volume_24h: 0,
                trade_count_24h: 0,
            },
        );
        self.last_reward_block.insert(pair_id, block as u64);
        assert(self@ =~= create_pool_next(
            old(self)@,
            caller,
            block as u64,
            timestamp,
            base_token,
            quote_token,
            fee_bips,
            initial_base,
            initial_quote,
        ));
        Ok(pair_id)
    }

    /// `caller` deposits base and quote into pool `pair_id` and receives LP shares;
    /// pending rewards are settled first.
    pub fn add_liquidity(
        &mut self,
        caller: AccountId,
        block: u32,
        timestamp: u64,
        pair_id: u64,
        amount_base: u128,
        amount_quote: u128,
    ) -> (r: Result<u128, DexError>)
        requires
            old(self).wf(),
        ensures
            final(self).wf(),
            old(self)@.locked ==> r == Err::<u128, DexError>(DexError::ReentrantCall) && final(self)@
                == old(self)@,
            !old(self)@.locked && (amount_base == 0 || amount_quote == 0) ==> r == Err::<u128, DexError>(
                DexError::InvalidPair,
            ) && final(self)@ == old(self)@,
            !old(self)@.locked && amount_base != 0 && amount_quote != 0 && !old(self)@.pools.contains_key(
                pair_id,
            ) ==> r == Err::<u128, DexError>(DexError::PoolNotFound) && final(self)@ == old(self)@,
            !old(self)@.locked && amount_base != 0 && amount_quote != 0 && old(self)@.pools.contains_key(
                pair_id,
            ) ==> {
                let s1 = accrued(old(self)@, pair_id, block as u64);
                r == Ok::<u128, DexError>(minted_shares(s1.pools[pair_id], amount_base, amount_quote))
                    && final(self)@ == add_liquidity_next(
                    s1,
                    caller,
                    timestamp,
                    pair_id,
                    amount_base,
                    amount_quote,
                )
            },
    {
        if self.reentrancy_guard.locked {
            return Err(DexError::ReentrantCall);
        }
        if amount_base == 0 || amount_quote == 0 {
            return Err(DexError::InvalidPair);
        }
        match self.accrue_rewards(block, pair_id) {
            Ok(()) => {},
            Err(e) => return Err(e),
        }
        let ghost s1 = self@;
        let mut pool = match self.pools.get(&pair_id) {
            Some(p) => *p,
            None => return Err(DexError::PoolNotFound),
        };
        let minted_shares = if pool.total_lp_shares == 0 {
            integer_sqrt(sat_mul(amount_base, amount_quote))
        } else {
            let base_shares = div_or_zero(sat_mul(amount_base, pool.total_lp_shares), pool.reserve_base);
            let quote_shares = div_or_zero(sat_mul(amount_quote, pool.total_lp_shares), pool.reserve_quote);
            if base_shares <= quote_shares {
                base_shares
            } else {
                quote_shares
            }
        };
        pool.reserve_base = pool.reserve_base.saturating_add(amount_base);
        pool.reserve_quote = pool.reserve_quote.saturating_add(amount_quote);
        pool.total_lp_shares = pool.total_lp_shares.saturating_add(minted_shares);
        Self::update_pool_price(&mut pool);
        self.pools.insert(pair_id, pool);
        let mut position = self.position(pair_id, caller);
        let accrued_rewards = pending_from_indices(position.lp_shares, pool.reward_index, position.reward_debt);
        position.pending_rewards = position.pending_rewards.saturating_add(accrued_rewards);
        position.reward_debt = scaled_reward_debt(
            position.lp_shares.saturating_add(minted_shares),
            pool.reward_index,
        );
        position.lp_shares = position.lp_shares.saturating_add(minted_shares);
        position.provided_base = position.provided_base.saturating_add(amount_base);
        position.provided_quote = position.provided_quote.saturating_add(amount_quote);
        self.positions.insert((pair_id, caller), position);
        let mut a = self.analytics_for(pair_id);
        a.last_updated = timestamp;
        self.analytics.insert(pair_id, a);
        assert(self@ =~= add_liquidity_next(s1, caller, timestamp, pair_id, amount_base, amount_quote));
        Ok(minted_shares)
    }

    /// `caller` burns `shares` of pool `pair_id` for their part of both reserves;
    /// pending rewards are settled first.
    pub fn remove_liquidity(&mut self, caller: AccountId, block: u32, pair_id: u64, shares: u128) -> (r: Result<
        (u128, u128),
        DexError,
    >)
        requires
            old(self).wf(),
        ensures
            final(self).wf(),
            old(self)@.locked ==> r == Err::<(u128, u128), DexError>(DexError::ReentrantCall) && final(self)@ == old(self)@,
            !old(self)@.locked && shares == 0 ==> r == Err::<(u128, u128), DexError>(DexError::InvalidPair)
                && final(self)@ == old(self)@,
            !old(self)@.locked && shares != 0 && !old(self)@.pools.contains_key(pair_id) ==> r == Err::<
                (u128, u128),
                DexError,
            >(DexError::PoolNotFound) && final(self)@ == old(self)@,
            !old(self)@.locked && shares != 0 && old(self)@.pools.contains_key(pair_id) ==> {
                let s1 = accrued(old(self)@, pair_id, block as u64);
                if shares > position_of(s1, pair_id, caller).lp_shares {
                    r == Err::<(u128, u128), DexError>(DexError::InsufficientLiquidity) && final(self)@
                        == s1
                } else {
                    r == Ok::<(u128, u128), DexError>(withdrawal(s1.pools[pair_id], shares)) && final(self)@ == remove_liquidity_next(s1, caller, pair_id, shares)
                }
            },
    {
        if self.reentrancy_guard.locked {
            return Err(DexError::ReentrantCall);
        }
        if shares == 0 {
            return Err(DexError::InvalidPair);
        }
        match self.accrue_rewards(block, pair_id) {
            Ok(()) => {},
            Err(e) => return Err(e),
        }
        let ghost s1 = self@;
        let mut pool = match self.pools.get(&pair_id) {
            Some(p) => *p,
            None => return Err(DexError::PoolNotFound),
        };
        let mut position = self.position(pair_id, caller);
        if shares > position.lp_shares {
            return Err(DexError::InsufficientLiquidity);
        }
        let base_out = div_or_zero(sat_mul(shares, pool.reserve_base), pool.total_lp_shares);
        let quote_out = div_or_zero(sat_mul(shares, pool.reserve_quote), pool.total_lp_shares);
        pool.reserve_base = pool.reserve_base.saturating_sub(base_out);
        pool.reserve_quote = pool.reserve_quote.saturating_sub(quote_out);
        pool.total_lp_shares = pool.total_lp_shares.saturating_sub(shares);
        Self::update_pool_price(&mut pool);
        self.pools.insert(pair_id, pool);
        let accrued_rewards = pending_from_indices(position.lp_shares, pool.reward_index, position.reward_debt);
        position.pending_rewards = position.pending_rewards.saturating_add(accrued_rewards);
        position.lp_shares = position.lp_shares.saturating_sub(shares);
        position.reward_debt = scaled_reward_debt(position.lp_shares, pool.reward_index);
        self.positions.insert((pair_id, caller), position);
        assert(self@ =~= remove_liquidity_next(s1, caller, pair_id, shares));
        Ok((base_out, quote_out))
    }

    /// `caller` collects the liquidity-mining rewards of its position in pool `pair_id`
    /// as governance tokens.
    pub fn claim_liquidity_rewards(&mut self, caller: AccountId, block: u32, pair_id: u64) -> (r: Result<
        u128,
        DexError,
    >)
        requires
            old(self).wf(),
        ensures
            final(self).wf(),
            old(self)@.locked ==> r == Err::<u128, DexError>(DexError::ReentrantCall) && final(self)@
                == old(self)@,
            !old(self)@.locked && !old(self)@.pools.contains_key(pair_id) ==> r == Err::<u128, DexError>(
                DexError::PoolNotFound,
            ) && final(self)@ == old(self)@,
            !old(self)@.locked && old(self)@.pools.contains_key(pair_id) ==> {
                let s1 = accrued(old(self)@, pair_id, block as u64);
                let reward = claimable(s1, pair_id, caller);
                let pos = position_of(s1, pair_id, caller);
                if reward == 0 {
                    r == Err::<u128, DexError>(DexError::RewardUnavailable) && final(self)@ == s1
                } else {
                    r == Ok::<u128, DexError>(reward) && final(self)@ == (DexState {
                        positions: s1.positions.insert(
                            (pair_id, caller),
                            LiquidityPosition {
                                pending_rewards: 0,
                                reward_debt: spec_scaled_reward_debt(
                                    pos.lp_shares,
                                    s1.pools[pair_id].reward_index,
                                ),
                                ..pos
                            },
                        ),
                        governance_balances: s1.governance_balances.insert(
                            caller,
                            sadd(get0(s1.governance_balances, caller), reward),
                        ),
                        governance_total_supply: sadd(s1.governance_total_supply, reward),
                        ..s1
                    })
                }
            },
    {
        if self.reentrancy_guard.locked {
            return Err(DexError::ReentrantCall);
        }
        match self.accrue_rewards(block, pair_id) {
            Ok(()) => {},
            Err(e) => return Err(e),
        }
        let ghost s1 = self@;
        let pool = match self.pools.get(&pair_id) {
            Some(p) => *p,
            None => return Err(DexError::PoolNotFound),
        };
        let mut position = self.position(pair_id, caller);
        let accrued_rewards = pending_from_indices(position.lp_shares, pool.reward_index, position.reward_debt);
        let reward = position.pending_rewards.saturating_add(accrued_rewards);
        if reward == 0 {
            return Err(DexError::RewardUnavailable);
        }
        position.pending_rewards = 0;
        position.reward_debt = scaled_reward_debt(position.lp_shares, pool.reward_index);
        self.positions.insert((pair_id, caller), position);
        let balance = lookup_or(&self.governance_balances, &caller, 0u128);
        self.governance_balances.insert(caller, balance.saturating_add(reward));
        self.governance_config.total_supply = self.governance_config.total_supply.saturating_add(reward);
        Ok(reward)
    }

    /// Rewards `account` could claim from pool `pair_id` at `block`, without changing state.
    pub fn pending_liquidity_rewards(&self, block: u32, pair_id: u64, account: AccountId) -> (r: Result<
        u128,
        DexError,
    >)
        requires
            self.wf(),
        ensures
            !self@.pools.contains_key(pair_id) ==> r == Err::<u128, DexError>(DexError::PoolNotFound),
            self@.pools.contains_key(pair_id) ==> r == Ok::<u128, DexError>(
                claimable(accrued(self@, pair_id, block as u64), pair_id, account),
            ),
    {
        let pool = match self.pools.get(&pair_id) {
            Some(p) => *p,
            None => return Err(DexError::PoolNotFound),
        };
        let mut index = pool.reward_index;
        if pool.total_lp_shares != 0 {
            let current_block = block as u64;
            let last_block = lookup_or(&self.last_reward_block, &pair_id, current_block);
            let start = if last_block >= self.liquidity_mining.start_block {
                last_block
            } else {
                self.liquidity_mining.start_block
            };
            let end = if current_block <= self.liquidity_mining.end_block {
                current_block
            } else {
                self.liquidity_mining.end_block
            };
            if end > start {
                let total_reward = sat_mul((end - start) as u128, self.liquidity_mining.emission_rate);
                let increment = sat_mul(total_reward, REWARD_PRECISION) / pool.total_lp_shares;
                index = index.saturating_add(increment);
            }
        }
        let position = self.position(pair_id, account);
        let accrued_rewards = pending_from_indices(position.lp_shares, index, position.reward_debt);
        Ok(position.pending_rewards.saturating_add(accrued_rewards))
    }

    /// The liquidity-mining campaign.
    pub fn get_liquidity_mining_campaign(&self) -> (r: LiquidityMiningCampaign)
        ensures
            r.emission_rate == self@.mining_emission_rate,
            r.start_block == self@.mining_start_block,
            r.end_block == self@.mining_end_block,
            r.reward_token_symbol == self@.mining_symbol,
    {
        self.liquidity_mining.copy()
    }
}

/// A pool trade never lowers the product of the reserves, as long as the reserve paid
/// into does not saturate (a saturating fee scaling or output product only lowers the
/// output); the output never exceeds the reserve it is taken from.
pub proof fn lemma_swap_keeps_k(p: LiquidityPool, side: OrderSide, amount_in: u128)
    requires
        amount_in > 0,
        reserves_for(p, side).0 > 0,
        reserves_for(p, side).1 > 0,
        reserves_for(p, side).0 + amount_in <= u128::MAX,
    ensures
        ({
            let (rin, rout) = reserves_for(p, side);
            let out = amount_out_for(p, side, amount_in);
            out <= rout && (rin + amount_in) * (rout - out) >= rin * rout
        }),
{
    let (rin, rout) = reserves_for(p, side);
    let keep = ssub(BIPS_DENOMINATOR, p.fee_bips as u128);
    assert(keep <= 10_000);
    let m = smul(amount_in, keep);
    assert(m <= amount_in * keep);
    assert(amount_in * keep <= amount_in * 10_000) by (nonlinear_arith)
        requires
            keep <= 10_000,
            amount_in >= 0,
    ;
    let f = fee_adjusted(amount_in, p.fee_bips);
    assert(f == m / 10_000);
    assert(f <= amount_in) by {
        vstd::arithmetic::div_mod::lemma_div_is_ordered(m as int, amount_in * 10_000, 10_000);
        vstd::arithmetic::div_mod::lemma_div_multiples_vanish(amount_in as int, 10_000);
        assert(amount_in * 10_000 == 10_000 * amount_in) by (nonlinear_arith);
    }
    let d = rin + f;
    assert(d <= u128::MAX);
    assert(sadd(rin, f) == d);
    let num = smul(f, rout);
    assert(num <= f * rout);
    let out = amount_out_for(p, side, amount_in);
    assert(out == num / (d as u128));
    vstd::arithmetic::div_mod::lemma_fundamental_div_mod(num as int, d);
    vstd::arithmetic::div_mod::lemma_mod_pos_bound(num as int, d);
    assert(d * out <= f * rout);
    assert(out <= rout) by (nonlinear_arith)
        requires
            d * out <= f * rout,
            d == rin + f,
            rin > 0,
            f >= 0,
            out >= 0,
            rout > 0,
    ;
    assert((rin + amount_in) * (rout - out) >= rin * rout) by (nonlinear_arith)
        requires
            d * out <= f * rout,
            d == rin + f,
            f <= amount_in,
            f >= 0,
            rin > 0,
            out >= 0,
            out <= rout,
    ;
}

/// The product of the reserves of pool `pair_id`.
pub open spec fn pool_k(s: DexState, pair_id: u64) -> int {
    s.pools[pair_id].reserve_base * s.pools[pair_id].reserve_quote
}

/// Whether a trade of `amount_in` on `side` of pool `pair_id` at `block` leaves the
/// reserve it pays into unsaturated.
pub open spec fn trade_unsaturated(s: DexState, block: u64, pair_id: u64, side: OrderSide, amount_in: u128) -> bool {
    reserves_for(accrued(s, pair_id, block).pools[pair_id], side).0 + amount_in <= u128::MAX
}

/// Whether each trade that the limit orders `ids` make, in turn from `s`, stays clear
/// of saturation.
pub open spec fn cascade_unsaturated(s: DexState, caller: AccountId, block: u64, timestamp: u64, ids: Seq<u64>) -> bool
    decreases ids.len(),
{
    if ids.len() == 0 {
        true
    } else {
        let prev = run_orders(s, caller, block, timestamp, ids.drop_last());
        let id = ids.last();
        &&& cascade_unsaturated(s, caller, block, timestamp, ids.drop_last())
        &&& prev.orders.contains_key(id) ==> trade_unsaturated(
            prev,
            block,
            prev.orders[id].pair_id,
            prev.orders[id].side,
            prev.orders[id].remaining_amount,
        )
    }
}

proof fn lemma_accrual_keeps_reserves(s: DexState, pair_id: u64, block: u64, q: u64)
    requires
        s.pools.contains_key(pair_id),
    ensures
        accrued(s, pair_id, block).pools.contains_key(q) == s.pools.contains_key(q),
        s.pools.contains_key(q) ==> accrued(s, pair_id, block).pools[q].reserve_base == s.pools[q].reserve_base
            && accrued(s, pair_id, block).pools[q].reserve_quote == s.pools[q].reserve_quote,
        accrued(s, pair_id, block).pools[pair_id].fee_bips == s.pools[pair_id].fee_bips,
{
}

proof fn lemma_trade_keeps_k(
    s: DexState,
    caller: AccountId,
    block: u64,
    timestamp: u64,
    pair_id: u64,
    side: OrderSide,
    amount_in: u128,
    min_amount_out: u128,
    q: u64,
)
    requires
        s.pools.contains_key(q),
        s.pools.contains_key(pair_id) ==> trade_unsaturated(s, block, pair_id, side, amount_in),
    ensures
        swap_once(s, caller, block, timestamp, pair_id, side, amount_in, min_amount_out).0.pools.contains_key(q),
        pool_k(swap_once(s, caller, block, timestamp, pair_id, side, amount_in, min_amount_out).0, q) >= pool_k(s, q),
{
    if amount_in > 0 && s.pools.contains_key(pair_id) {
        lemma_accrual_keeps_reserves(s, pair_id, block, q);
        let s1 = accrued(s, pair_id, block);
        let p = s1.pools[pair_id];
        let (rin, rout) = reserves_for(p, side);
        if rin > 0 && rout > 0 {
            let out = amount_out_for(p, side, amount_in);
            if q == pair_id && !(out == 0 || out < min_amount_out) {
                lemma_swap_keeps_k(p, side, amount_in);
                let p2 = traded_pool(p, side, amount_in, out);
                let k0 = p.reserve_base * p.reserve_quote;
                match side {
                    OrderSide::Sell => {
                        assert(p2.reserve_base == rin + amount_in && p2.reserve_quote == rout - out);
                    },
                    OrderSide::Buy => {
                        assert(p2.reserve_quote == rin + amount_in && p2.reserve_base == rout - out);
                        assert((rin + amount_in) * (rout - out) == (rout - out) * (rin + amount_in)) by (nonlinear_arith);
                        assert(rin * rout == rout * rin) by (nonlinear_arith);
                    },
                }
                assert(p2.reserve_base * p2.reserve_quote >= k0);
            }
        }
    }
}

proof fn lemma_order_fill_keeps_k(
    s: DexState,
    caller: AccountId,
    block: u64,
    timestamp: u64,
    order_id: u64,
    q: u64,
)
    requires
        s.pools.contains_key(q),
        s.orders.contains_key(order_id),
        trade_unsaturated(
            s,
            block,
            s.orders[order_id].pair_id,
            s.orders[order_id].side,
            s.orders[order_id].remaining_amount,
        ),
    ensures
        ({
            let s2 = exec_order(s, caller, block, timestamp, order_id, s.orders[order_id].remaining_amount, false).0;
            s2.pools.contains_key(q) && pool_k(s2, q) >= pool_k(s, q)
        }),
{
    let o = s.orders[order_id];
    lemma_trade_keeps_k(s, caller, block, timestamp, o.pair_id, o.side, o.remaining_amount, 0, q);
}

proof fn lemma_cascade_keeps_k(s: DexState, caller: AccountId, block: u64, timestamp: u64, ids: Seq<u64>, q: u64)
    requires
        s.pools.contains_key(q),
        cascade_unsaturated(s, caller, block, timestamp, ids),
    ensures
        run_orders(s, caller, block, timestamp, ids).pools.contains_key(q),
        pool_k(run_orders(s, caller, block, timestamp, ids), q) >= pool_k(s, q),
    decreases ids.len(),
{
    if ids.len() > 0 {
        lemma_cascade_keeps_k(s, caller, block, timestamp, ids.drop_last(), q);
        let prev = run_orders(s, caller, block, timestamp, ids.drop_last());
        let id = ids.last();
        if prev.orders.contains_key(id) {
            lemma_order_fill_keeps_k(prev, caller, block, timestamp, id, q);
        }
    }
}

/// Whether no trade of a swap saturates the reserve it pays into: neither the swap's own
/// trade on `pair_id` nor any trade of the limit-order cascade that follows it.
pub open spec fn swap_unsaturated(
    s: DexState,
    caller: AccountId,
    block: u64,
    timestamp: u64,
    pair_id: u64,
    side: OrderSide,
    amount_in: u128,
    min_amount_out: u128,
) -> bool {
    &&& s.pools.contains_key(pair_id)
    &&& trade_unsaturated(s, block, pair_id, side, amount_in)
    &&& ({
        let (s1, r) = swap_once(s, caller, block, timestamp, pair_id, side, amount_in, min_amount_out);
        r is Ok ==> cascade_unsaturated(
            s1,
            caller,
            block,
            timestamp,
            limit_candidates(s1, pair_id, get_or(s1.order_book_count, pair_id, 0u64) as nat),
        )
    })
}

/// A whole swap, limit-order cascade included, never lowers the product of the
/// reserves of its pool (the fees stay in the pool), as long as none of its trades
/// saturates the reserve it pays into.
pub proof fn lemma_full_swap_keeps_k(
    s: DexState,
    caller: AccountId,
    block: u64,
    timestamp: u64,
    pair_id: u64,
    side: OrderSide,
    amount_in: u128,
    min_amount_out: u128,
)
    requires
        swap_unsaturated(s, caller, block, timestamp, pair_id, side, amount_in, min_amount_out),
    ensures
        swap_full(s, caller, block, timestamp, pair_id, side, amount_in, min_amount_out).0.pools.contains_key(pair_id),
        pool_k(swap_full(s, caller, block, timestamp, pair_id, side, amount_in, min_amount_out).0, pair_id) >= pool_k(
            s,
            pair_id,
        ),
{
    lemma_trade_keeps_k(s, caller, block, timestamp, pair_id, side, amount_in, min_amount_out, pair_id);
    let (s1, r) = swap_once(s, caller, block, timestamp, pair_id, side, amount_in, min_amount_out);
    if r is Ok {
        let ids = limit_candidates(s1, pair_id, get_or(s1.order_book_count, pair_id, 0u64) as nat);
        lemma_cascade_keeps_k(s1, caller, block, timestamp, ids, pair_id);
    }
}

/// A swap pays what the price-impact quote of the same trade on the same pool says:
/// when the quoted output is positive and at least the minimum asked, the swap
/// succeeds with exactly that output.
pub proof fn lemma_quote_matches_swap(
    s: DexState,
    caller: AccountId,
    block: u64,
    timestamp: u64,
    pair_id: u64,
    side: OrderSide,
    amount_in: u128,
    min_amount_out: u128,
)
    requires
        amount_in > 0,
        s.pools.contains_key(pair_id),
        reserves_for(s.pools[pair_id], side).0 > 0,
        reserves_for(s.pools[pair_id], side).1 > 0,
        crate::dex::reports::price_impact(s.pools[pair_id], side, amount_in).1 > 0,
        min_amount_out <= crate::dex::reports::price_impact(s.pools[pair_id], side, amount_in).1,
    ensures
        swap_full(s, caller, block, timestamp, pair_id, side, amount_in, min_amount_out).1 == Ok::<u128, DexError>(
            crate::dex::reports::price_impact(s.pools[pair_id], side, amount_in).1,
        ),
{
    lemma_accrual_keeps_reserves(s, pair_id, block, pair_id);
    let p = s.pools[pair_id];
    let p1 = accrued(s, pair_id, block).pools[pair_id];
    assert(reserves_for(p1, side) == reserves_for(p, side));
    assert(amount_out_for(p1, side, amount_in) == amount_out_for(p, side, amount_in));
}

/// A bigger trade never gets less out of the same pool: the constant-product output
/// grows with the amount paid in, as long as nothing saturates.
pub proof fn lemma_swap_output_monotone(p: LiquidityPool, side: OrderSide, small: u128, large: u128)
    requires
        small <= large,
        reserves_for(p, side).0 > 0,
        large * BIPS_DENOMINATOR <= u128::MAX,
        fee_adjusted(large, p.fee_bips) * reserves_for(p, side).1 <= u128::MAX,
        reserves_for(p, side).0 + fee_adjusted(large, p.fee_bips) <= u128::MAX,
        p.fee_bips <= 10_000,
    ensures
        amount_out_for(p, side, small) <= amount_out_for(p, side, large),
{
    let (rin, rout) = reserves_for(p, side);
    let keep = (BIPS_DENOMINATOR - p.fee_bips) as int;
    assert(small * keep <= large * keep) by (nonlinear_arith)
        requires
            small <= large,
            keep >= 0,
    ;
    assert(large * keep <= large * 10_000) by (nonlinear_arith)
        requires
            keep <= 10_000,
            large >= 0,
    ;
    let f1 = fee_adjusted(small, p.fee_bips);
    let f2 = fee_adjusted(large, p.fee_bips);
    assert(f1 == (small * keep) / 10_000);
    assert(f2 == (large * keep) / 10_000);
    vstd::arithmetic::div_mod::lemma_div_is_ordered(small * keep, large * keep, 10_000);
    assert(f1 <= f2);
    assert(f1 * rout <= f2 * rout) by (nonlinear_arith)
        requires
            f1 <= f2,
            rout >= 0,
    ;
    let a = f1 * rout;
    let b = rin + f1;
    let c = f2 * rout;
    let d = rin + f2;
    assert(amount_out_for(p, side, small) == a / b);
    assert(amount_out_for(p, side, large) == c / d);
    assert(a * d <= c * b) by (nonlinear_arith)
        requires
            a == f1 * rout,
            c == f2 * rout,
            b == rin + f1,
            d == rin + f2,
            f1 <= f2,
            rin >= 0,
            rout >= 0,
            f1 >= 0,
    ;
    let q = a / b;
    vstd::arithmetic::div_mod::lemma_fundamental_div_mod(a, b);
    vstd::arithmetic::div_mod::lemma_mod_pos_bound(a, b);
    assert(q * b <= a);
    assert(q * d <= c) by (nonlinear_arith)
        requires
            q * b <= a,
            a * d <= c * b,
            b > 0,
            d > 0,
            q >= 0,
    ;
    vstd::arithmetic::div_mod::lemma_fundamental_div_mod(c, d);
    vstd::arithmetic::div_mod::lemma_mod_pos_bound(c, d);
    assert(q <= c / d) by (nonlinear_arith)
        requires
            q * d <= c,
            c == d * (c / d) + c % d,
            c % d < d,
            d > 0,
    ;
}

} // verus!
