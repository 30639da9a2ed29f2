//! Administration of the exchange: bridge routes, cross-chain trade intents, the
//! liquidity-mining campaign, fee governance and the admin timelock.
use vstd::prelude::*;

use crate::common::{get0, lookup_or, AccountId};
use crate::dex::{
    AdminActionKind, AdminActionPayload, AdminActionStatus, BridgeFeeQuote, ChainId,
    CrossChainTradeIntent, CrossChainTradeStatus, DexError, DexProposal, DexState,
    LiquidityPool, PendingAdminAction, PropertyDex,
};
use crate::math::sadd;
use crate::common::sadd64;

verus! {

/// The quote stored for a route to `destination_chain`.
pub open spec fn route_quote(destination_chain: ChainId, gas_estimate: u64, protocol_fee: u128) -> BridgeFeeQuote {
    BridgeFeeQuote {
        destination_chain,
        gas_estimate,
        protocol_fee,
        total_fee: sadd(protocol_fee, gas_estimate as u128),
    }
}

/// The state after the route to `destination_chain` is (re)configured.
pub open spec fn with_route(s: DexState, destination_chain: ChainId, gas_estimate: u64, protocol_fee: u128) -> DexState {
    DexState {
        bridge_quotes: s.bridge_quotes.insert(
            destination_chain,
            route_quote(destination_chain, gas_estimate, protocol_fee),
        ),
        ..s
    }
}

/// The state after the liquidity-mining campaign is replaced.
pub open spec fn with_campaign(
    s: DexState,
    emission_rate: u128,
    start_block: u64,
    end_block: u64,
    reward_token_symbol: String,
) -> DexState {
    DexState {
        mining_emission_rate: emission_rate,
        mining_start_block: start_block,
        mining_end_block: end_block,
        mining_symbol: reward_token_symbol,
        governance_emission_rate: emission_rate,
        ..s
    }
}

/// Whether a campaign is acceptable: it emits something over a non-empty window and
/// names its reward token.
pub open spec fn valid_campaign(emission_rate: u128, start_block: u64, end_block: u64, symbol: Seq<char>) -> bool {
    emission_rate != 0 && start_block < end_block && symbol.len() != 0
}

/// The pools with every pool numbered 1 to `n` charging `fee_bips`.
pub open spec fn fee_applied(pools: Map<u64, LiquidityPool>, n: u64, fee_bips: u32) -> Map<u64, LiquidityPool> {
    Map::new(
        |k: u64| pools.contains_key(k),
        |k: u64|
            if 1 <= k && k <= n {
                LiquidityPool { fee_bips, ..pools[k] }
            } else {
                pools[k]
            },
    )
}

/// The admin change scheduled as the next action.
pub open spec fn scheduled_action(
    s: DexState,
    caller: AccountId,
    block: u64,
    kind: AdminActionKind,
    payload: AdminActionPayload,
) -> PendingAdminAction {
    PendingAdminAction {
        action_id: sadd64(s.pending_admin_action_counter, 1),
        kind,
        payload,
        proposer: caller,
        scheduled_at: block,
        executable_at: sadd64(block, s.admin_timelock_delay),
        status: AdminActionStatus::Scheduled,
    }
}

/// The state after `caller` schedules an admin change.
pub open spec fn with_scheduled(
    s: DexState,
    caller: AccountId,
    block: u64,
    kind: AdminActionKind,
    payload: AdminActionPayload,
) -> DexState {
    let a = scheduled_action(s, caller, block, kind, payload);
    DexState {
        pending_admin_action_counter: a.action_id,
        pending_admin_actions: s.pending_admin_actions.insert(a.action_id, a),
        ..s
    }
}

/// The state after a scheduled admin change takes effect.
pub open spec fn applied(s: DexState, a: PendingAdminAction) -> DexState {
    match a.kind {
        AdminActionKind::ConfigureBridgeRoute => with_route(
            s,
            a.payload.destination_chain,
            a.payload.gas_estimate,
            a.payload.protocol_fee,
        ),
        AdminActionKind::SetLiquidityMining => with_campaign(
            s,
            a.payload.emission_rate,
            a.payload.start_block,
            a.payload.end_block,
            a.payload.reward_token_symbol,
        ),
        AdminActionKind::UpdateTimelockDelay => DexState {
            admin_timelock_delay: a.payload.timelock_delay_blocks,
            ..s
        },
    }
}

/// A payload with every field zero or empty but those an action sets.
pub open spec fn payload_of(
    destination_chain: ChainId,
    gas_estimate: u64,
    protocol_fee: u128,
    emission_rate: u128,
    start_block: u64,
    end_block: u64,
    reward_token_symbol: Seq<char>,
    timelock_delay_blocks: u64,
    p: AdminActionPayload,
) -> bool {
    &&& p.destination_chain == destination_chain
    &&& p.gas_estimate == gas_estimate
    &&& p.protocol_fee == protocol_fee
    &&& p.emission_rate == emission_rate
    &&& p.start_block == start_block
    &&& p.end_block == end_block
    &&& p.reward_token_symbol@ == reward_token_symbol
    &&& p.timelock_delay_blocks == timelock_delay_blocks
}

impl PropertyDex {
    fn apply_configure_bridge_route(&mut self, destination_chain: ChainId, gas_estimate: u64, protocol_fee: u128)
        requires
            old(self).wf(),
        ensures
            final(self).wf(),
            final(self)@ == with_route(old(self)@, destination_chain, gas_estimate, protocol_fee),
    {
        self.bridge_quotes.insert(
            destination_chain,
            BridgeFeeQuote {
                destination_chain,
                gas_estimate,
                protocol_fee,
                total_fee: protocol_fee.saturating_add(gas_estimate as u128),
            },
        );
        assert(self@ =~= with_route(old(self)@, destination_chain, gas_estimate, protocol_fee));
    }

    fn apply_set_liquidity_mining(
        &mut self,
        emission_rate: u128,
        start_block: u64,
        end_block: u64,
        reward_token_symbol: String,
    )
        requires
            old(self).wf(),
        ensures
            final(self).wf(),
            final(self)@ == with_campaign(
                old(self)@,
                emission_rate,
                start_block,
                end_block,
                reward_token_symbol,
            ),
    {
        self.liquidity_mining.emission_rate = emission_rate;
        self.liquidity_mining.start_block = start_block;
        self.liquidity_mining.end_block = end_block;
        self.liquidity_mining.reward_token_symbol = reward_token_symbol;
        self.governance_config.emission_rate = emission_rate;
        assert(self@ =~= with_campaign(
            old(self)@,
            emission_rate,
            start_block,
            end_block,
            self.liquidity_mining.reward_token_symbol,
        ));
    }

    /// The admin sets the fee quote of the route to `destination_chain`; refused while a
    /// timelock is in force (schedule the change instead).
    pub fn configure_bridge_route(
        &mut self,
        caller: AccountId,
        destination_chain: ChainId,
        gas_estimate: u64,
        protocol_fee: u128,
    ) -> (r: Result<(), DexError>)
        requires
            old(self).wf(),
        ensures
            final(self).wf(),
            caller != old(self)@.admin ==> r == Err::<(), DexError>(DexError::Unauthorized) && final(self)@ == old(self)@,
            caller == old(self)@.admin && old(self)@.admin_timelock_delay > 0 ==> r == Err::<
                (),
                DexError,
            >(DexError::TimelockRequired) && final(self)@ == old(self)@,
            caller == old(self)@.admin && old(self)@.admin_timelock_delay == 0 ==> r == Ok::<
                (),
                DexError,
            >(()) && final(self)@ == with_route(
                old(self)@,
                destination_chain,
                gas_estimate,
                protocol_fee,
            ),
    {
        if caller != self.admin {
            return Err(DexError::Unauthorized);
        }
        if self.admin_timelock_delay > 0 {
            return Err(DexError::TimelockRequired);
        }
        self.apply_configure_bridge_route(destination_chain, gas_estimate, protocol_fee);
        Ok(())
    }

    /// The fee quote of the route to `destination_chain`.
    pub fn quote_cross_chain_trade(&self, destination_chain: ChainId) -> (r: Result<BridgeFeeQuote, DexError>)
        requires
            self.wf(),
        ensures
            r == if self@.bridge_quotes.contains_key(destination_chain) {
                Ok::<BridgeFeeQuote, DexError>(self@.bridge_quotes[destination_chain])
            } else {
                Err::<BridgeFeeQuote, DexError>(DexError::InvalidBridgeRoute)
            },
    {
        match self.bridge_quotes.get(&destination_chain) {
            Some(q) => Ok(*q),
            None => Err(DexError::InvalidBridgeRoute),
        }
    }

    /// `caller` records the intent to trade on pool `pair_id` and deliver the proceeds
    /// to `recipient` on `destination_chain`, at the route's current quote.
    pub fn create_cross_chain_trade(
        &mut self,
        caller: AccountId,
        timestamp: u64,
        pair_id: u64,
        order_id: Option<u64>,
        destination_chain: ChainId,
        recipient: AccountId,
        amount_in: u128,
        min_amount_out: u128,
    ) -> (r: Result<u64, DexError>)
        requires
            old(self).wf(),
            old(self)@.cross_chain_trade_counter < u64::MAX,
        ensures
            final(self).wf(),
            old(self)@.locked ==> r == Err::<u64, DexError>(DexError::ReentrantCall) && final(self)@
                == old(self)@,
            !old(self)@.locked && !old(self)@.pools.contains_key(pair_id) ==> r == Err::<u64, DexError>(
                DexError::PoolNotFound,
            ) && final(self)@ == old(self)@,
            !old(self)@.locked && old(self)@.pools.contains_key(pair_id)
                && !old(self)@.bridge_quotes.contains_key(destination_chain) ==> r == Err::<
                u64,
                DexError,
            >(DexError::InvalidBridgeRoute) && final(self)@ == old(self)@,
            !old(self)@.locked && old(self)@.pools.contains_key(pair_id)
                && old(self)@.bridge_quotes.contains_key(destination_chain) ==> {
                let id = (old(self)@.cross_chain_trade_counter + 1) as u64;
                &&& r == Ok::<u64, DexError>(id)
                &&& final(self)@ == DexState {
                    cross_chain_trade_counter: id,
                    cross_chain_trades: old(self)@.cross_chain_trades.insert(
                        id,
                        CrossChainTradeIntent {
                            trade_id: id,
                            pair_id,
                            order_id,
                            source_chain: 1,
                            destination_chain,
                            trader: caller,
                            recipient,
                            amount_in,
                            min_amount_out,
                            bridge_request_id: None,
                            bridge_fee_quote: old(self)@.bridge_quotes[destination_chain],
                            status: CrossChainTradeStatus::Pending,
                            created_at: timestamp,
                        },
                    ),
                    ..old(self)@
                }
            },
    {
        if self.reentrancy_guard.locked {
            return Err(DexError::ReentrantCall);
        }
        if !self.pools.contains(&pair_id) {
            return Err(DexError::PoolNotFound);
        }
        let quote = match self.quote_cross_chain_trade(destination_chain) {
            Ok(q) => q,
            Err(e) => return Err(e),
        };
        self.cross_chain_trade_counter = self.cross_chain_trade_counter + 1;
        let trade_id = self.cross_chain_trade_counter;
        self.cross_chain_trades.insert(
            trade_id,
            CrossChainTradeIntent {
                trade_id,
                pair_id,
                order_id,
                source_chain: 1,
                destination_chain,
                trader: caller,
                recipient,
                amount_in,
                min_amount_out,
                bridge_request_id: None,
                bridge_fee_quote: quote,
                status: CrossChainTradeStatus::Pending,
                created_at: timestamp,
            },
        );
        assert(self@ =~= DexState {
            cross_chain_trade_counter: trade_id,
            cross_chain_trades: old(self)@.cross_chain_trades.insert(
                trade_id,
                CrossChainTradeIntent {
                    trade_id,
                    pair_id,
                    order_id,
                    source_chain: 1,
                    destination_chain,
                    trader: caller,
                    recipient,
                    amount_in,
                    min_amount_out,
                    bridge_request_id: None,
                    bridge_fee_quote: quote,
                    status: CrossChainTradeStatus::Pending,
                    created_at: timestamp,
                },
            ),
            ..old(self)@
        });
        Ok(trade_id)
    }

    /// The trader, or the admin, links a cross-chain trade to its bridge request.
    pub fn attach_bridge_request(&mut self, caller: AccountId, trade_id: u64, bridge_request_id: u64) -> (r:
        Result<(), DexError>)
        requires
            old(self).wf(),
        ensures
            final(self).wf(),
            old(self)@.locked ==> r == Err::<(), DexError>(DexError::ReentrantCall) && final(self)@
                == old(self)@,
            !old(self)@.locked && !old(self)@.cross_chain_trades.contains_key(trade_id) ==> r == Err::<
                (),
                DexError,
            >(DexError::CrossChainTradeNotFound) && final(self)@ == old(self)@,
            !old(self)@.locked && old(self)@.cross_chain_trades.contains_key(trade_id) ==> {
                let t = old(self)@.cross_chain_trades[trade_id];
                if caller != t.trader && caller != old(self)@.admin {
                    r == Err::<(), DexError>(DexError::Unauthorized) && final(self)@ == old(self)@
                } else {
                    r == Ok::<(), DexError>(()) && final(self)@ == DexState {
                        cross_chain_trades: old(self)@.cross_chain_trades.insert(
                            trade_id,
                            CrossChainTradeIntent {
                                bridge_request_id: Some(bridge_request_id),
                                status: CrossChainTradeStatus::BridgeRequested,
                                ..t
                            },
                        ),
                        ..old(self)@
                    }
                }
            },
    {
        if self.reentrancy_guard.locked {
            return Err(DexError::ReentrantCall);
        }
        let mut trade = match self.cross_chain_trades.get(&trade_id) {
            Some(t) => *t,
            None => return Err(DexError::CrossChainTradeNotFound),
        };
        if caller != trade.trader && caller != self.admin {
            return Err(DexError::Unauthorized);
        }
        trade.bridge_request_id = Some(bridge_request_id);
        trade.status = CrossChainTradeStatus::BridgeRequested;
        self.cross_chain_trades.insert(trade_id, trade);
        assert(self@ =~= DexState {
            cross_chain_trades: old(self)@.cross_chain_trades.insert(trade_id, trade),
            ..old(self)@
        });
        Ok(())
    }

    /// The admin marks a cross-chain trade settled.
    pub fn finalize_cross_chain_trade(&mut self, caller: AccountId, trade_id: u64) -> (r: Result<(), DexError>)
        requires
            old(self).wf(),
        ensures
            final(self).wf(),
            old(self)@.locked ==> r == Err::<(), DexError>(DexError::ReentrantCall) && final(self)@
                == old(self)@,
            !old(self)@.locked && !old(self)@.cross_chain_trades.contains_key(trade_id) ==> r == Err::<
                (),
                DexError,
            >(DexError::CrossChainTradeNotFound) && final(self)@ == old(self)@,
            !old(self)@.locked && old(self)@.cross_chain_trades.contains_key(trade_id) && caller
                != old(self)@.admin ==> r == Err::<(), DexError>(DexError::Unauthorized) && final(self)@ == old(self)@,
            !old(self)@.locked && old(self)@.cross_chain_trades.contains_key(trade_id) && caller
                == old(self)@.admin ==> r == Ok::<(), DexError>(()) && final(self)@ == (DexState {
                cross_chain_trades: old(self)@.cross_chain_trades.insert(
                    trade_id,
                    CrossChainTradeIntent {
                        status: CrossChainTradeStatus::Settled,
                        ..old(self)@.cross_chain_trades[trade_id]
                    },
                ),
                ..old(self)@
            }),
    {
        if self.reentrancy_guard.locked {
            return Err(DexError::ReentrantCall);
        }
        let mut trade = match self.cross_chain_trades.get(&trade_id) {
            Some(t) => *t,
            None => return Err(DexError::CrossChainTradeNotFound),
        };
        if caller != self.admin {
            return Err(DexError::Unauthorized);
        }
        trade.status = CrossChainTradeStatus::Settled;
        self.cross_chain_trades.insert(trade_id, trade);
        assert(self@ =~= DexState {
            cross_chain_trades: old(self)@.cross_chain_trades.insert(trade_id, trade),
            ..old(self)@
        });
        Ok(())
    }

    /// The cross-chain trade `trade_id`.
    pub fn get_cross_chain_trade(&self, trade_id: u64) -> (r: Result<CrossChainTradeIntent, DexError>)
        requires
            self.wf(),
        ensures
            r == if self@.cross_chain_trades.contains_key(trade_id) {
                Ok::<CrossChainTradeIntent, DexError>(self@.cross_chain_trades[trade_id])
            } else {
                Err::<CrossChainTradeIntent, DexError>(DexError::CrossChainTradeNotFound)
            },
    {
        match self.cross_chain_trades.get(&trade_id) {
            Some(t) => Ok(*t),
            None => Err(DexError::CrossChainTradeNotFound),
        }
    }

    /// The admin replaces the liquidity-mining campaign; refused while a timelock is in
    /// force, and for a campaign that emits nothing, has an empty window or no symbol.
    pub fn set_liquidity_mining_campaign(
        &mut self,
        caller: AccountId,
        emission_rate: u128,
        start_block: u64,
        end_block: u64,
        reward_token_symbol: String,
    ) -> (r: Result<(), DexError>)
        requires
            old(self).wf(),
        ensures
            final(self).wf(),
            old(self)@.locked ==> r == Err::<(), DexError>(DexError::ReentrantCall) && final(self)@
                == old(self)@,
            !old(self)@.locked && caller != old(self)@.admin ==> r == Err::<(), DexError>(
                DexError::Unauthorized,
            ) && final(self)@ == old(self)@,
            !old(self)@.locked && caller == old(self)@.admin && old(self)@.admin_timelock_delay > 0
                ==> r == Err::<(), DexError>(DexError::TimelockRequired) && final(self)@ == old(self)@,
            !old(self)@.locked && caller == old(self)@.admin && old(self)@.admin_timelock_delay == 0
                && !valid_campaign(emission_rate, start_block, end_block, reward_token_symbol@)
                ==> r == Err::<(), DexError>(DexError::InvalidRequest) && final(self)@ == old(self)@,
            !old(self)@.locked && caller == old(self)@.admin && old(self)@.admin_timelock_delay == 0
                && valid_campaign(emission_rate, start_block, end_block, reward_token_symbol@) ==> r
                == Ok::<(), DexError>(()) && final(self)@ == with_campaign(
                old(self)@,
                emission_rate,
                start_block,
                end_block,
                reward_token_symbol,
            ),
    {
        if self.reentrancy_guard.locked {
            return Err(DexError::ReentrantCall);
        }
        if caller != self.admin {
            return Err(DexError::Unauthorized);
        }
        if self.admin_timelock_delay > 0 {
            return Err(DexError::TimelockRequired);
        }
        if emission_rate == 0 || start_block >= end_block || reward_token_symbol.as_str().is_empty() {
            return Err(DexError::InvalidRequest);
        }
        self.apply_set_liquidity_mining(emission_rate, start_block, end_block, reward_token_symbol);
        Ok(())
    }

    /// A holder of governance tokens proposes a fee or emission change, open for votes
    /// from `block` for `duration_blocks` blocks.
    pub fn create_governance_proposal(
        &mut self,
        caller: AccountId,
        block: u32,
        title: String,
        description_hash: [u8; 32],
        new_fee_bips: Option<u32>,
        new_emission_rate: Option<u128>,
        duration_blocks: u64,
    ) -> (r: Result<u64, DexError>)
        requires
            old(self).wf(),
            old(self)@.proposal_counter < u64::MAX,
        ensures
            final(self).wf(),
            old(self)@.locked ==> r == Err::<u64, DexError>(DexError::ReentrantCall) && final(self)@
                == old(self)@,
            !old(self)@.locked && get0(old(self)@.governance_balances, caller) == 0 ==> r == Err::<
                u64,
                DexError,
            >(DexError::InsufficientGovernanceBalance) && final(self)@ == old(self)@,
            !old(self)@.locked && get0(old(self)@.governance_balances, caller) != 0 ==> {
                let id = (old(self)@.proposal_counter + 1) as u64;
                &&& r == Ok::<u64, DexError>(id)
                &&& final(self)@ == DexState {
                    proposal_counter: id,
                    governance_proposals: old(self)@.governance_proposals.insert(
                        id,
                        DexProposal {
                            proposal_id: id,
                            proposer: caller,
                            title,
                            description_hash,
                            new_fee_bips,
                            new_emission_rate,
                            votes_for: 0,
                            votes_against: 0,
                            start_block: block as u64,
                            end_block: sadd64(block as u64, duration_blocks),
                            executed: false,
                        },
                    ),
                    ..old(self)@
                }
            },
    {
        if self.reentrancy_guard.locked {
            return Err(DexError::ReentrantCall);
        }
        let balance = lookup_or(&self.governance_balances, &caller, 0u128);
        if balance == 0 {
            return Err(DexError::InsufficientGovernanceBalance);
        }
        self.proposal_counter = self.proposal_counter + 1;
        let start_block = block as u64;
        let proposal_id = self.proposal_counter;
        let proposal = DexProposal {
            proposal_id,
            proposer: caller,
            title,
            description_hash,
            new_fee_bips,
            new_emission_rate,
            votes_for: 0,
            votes_against: 0,
            start_block,
            end_block: start_block.saturating_add(duration_blocks),
            executed: false,
        };
        let ghost p = proposal;
        self.governance_proposals.insert(proposal_id, proposal);
        assert(self@ =~= DexState {
            proposal_counter: proposal_id,
            governance_proposals: old(self)@.governance_proposals.insert(proposal_id, p),
            ..old(self)@
        });
        Ok(proposal_id)
    }

    /// `caller` votes once on an open proposal with its whole governance balance.
    pub fn vote_on_proposal(&mut self, caller: AccountId, block: u32, proposal_id: u64, support: bool) -> (r:
        Result<(), DexError>)
        requires
            old(self).wf(),
        ensures
            final(self).wf(),
            old(self)@.locked ==> r == Err::<(), DexError>(DexError::ReentrantCall) && final(self)@
                == old(self)@,
            !old(self)@.locked && old(self)@.votes_cast.contains_key((proposal_id, caller))
                && old(self)@.votes_cast[(proposal_id, caller)] ==> r == Err::<(), DexError>(
                DexError::AlreadyVoted,
            ) && final(self)@ == old(self)@,
            !old(self)@.locked && !(old(self)@.votes_cast.contains_key((proposal_id, caller))
                && old(self)@.votes_cast[(proposal_id, caller)]) ==> {
                let s = old(self)@;
                if !s.governance_proposals.contains_key(proposal_id) {
                    r == Err::<(), DexError>(DexError::ProposalNotFound) && final(self)@ == s
                } else {
                    let p = s.governance_proposals[proposal_id];
                    let power = get0(s.governance_balances, caller);
                    if block as u64 > p.end_block || p.executed {
                        r == Err::<(), DexError>(DexError::ProposalClosed) && final(self)@ == s
                    } else {
                        r == Ok::<(), DexError>(()) && final(self)@ == DexState {
                            governance_proposals: s.governance_proposals.insert(
                                proposal_id,
                                if support {
                                    DexProposal { votes_for: sadd(p.votes_for, power), ..p }
                                } else {
                                    DexProposal { votes_against: sadd(p.votes_against, power), ..p }
                                },
                            ),
                            votes_cast: s.votes_cast.insert((proposal_id, caller), true),
                            ..s
                        }
                    }
                }
            },
    {
        if self.reentrancy_guard.locked {
            return Err(DexError::ReentrantCall);
        }
        if lookup_or(&self.votes_cast, &(proposal_id, caller), false) {
            return Err(DexError::AlreadyVoted);
        }
        let mut proposal = match self.governance_proposals.get(&proposal_id) {
            Some(p) => p.copy(),
            None => return Err(DexError::ProposalNotFound),
        };
        let current_block = block as u64;
        if current_block > proposal.end_block || proposal.executed {
            return Err(DexError::ProposalClosed);
        }
        let voting_power = lookup_or(&self.governance_balances, &caller, 0u128);
        if support {
            proposal.votes_for = proposal.votes_for.saturating_add(voting_power);
        } else {
            proposal.votes_against = proposal.votes_against.saturating_add(voting_power);
        }
        let ghost p = proposal;
        self.governance_proposals.insert(proposal_id, proposal);
        self.votes_cast.insert((proposal_id, caller), true);
        assert(self@ =~= DexState {
            governance_proposals: old(self)@.governance_proposals.insert(proposal_id, p),
            votes_cast: old(self)@.votes_cast.insert((proposal_id, caller), true),
            ..old(self)@
        });
        Ok(())
    }

    fn apply_fee_to_all_pools(&mut self, new_fee_bips: u32) -> (r: Result<(), DexError>)
        requires
            old(self).wf(),
        ensures
            final(self).wf(),
            new_fee_bips >= 1_000 ==> r == Err::<(), DexError>(DexError::InvalidPair) && final(self)@
                == old(self)@,
            new_fee_bips < 1_000 ==> r == Ok::<(), DexError>(()) && final(self)@ == (DexState {
                pools: fee_applied(old(self)@.pools, old(self)@.pair_counter, new_fee_bips),
                ..old(self)@
            }),
    {
        if new_fee_bips >= 1_000 {
            return Err(DexError::InvalidPair);
        }
        let n = self.pair_counter;
        let mut i: u64 = 0;
        while i < n
            invariant
                self.wf(),
                n == old(self)@.pair_counter,
                i <= n,
                self@ == (DexState { pools: fee_applied(old(self)@.pools, i, new_fee_bips), ..old(self)@ }),
            decreases n - i,
        {
            i = i + 1;
            let ghost before = self@.pools;
            match self.pools.get(&i) {
                Some(p) => {
                    let mut pool = *p;
                    pool.fee_bips = new_fee_bips;
                    self.pools.insert(i, pool);
                },
                None => {},
            }
            assert(self@.pools =~= fee_applied(old(self)@.pools, i, new_fee_bips));
        }
        assert(self@ =~= DexState {
            pools: fee_applied(old(self)@.pools, old(self)@.pair_counter, new_fee_bips),
            ..old(self)@
        });
        Ok(())
    }

    /// Closes a proposal after its voting window; returns whether it passed (more votes
    /// for than against). A passed fee change is applied to every pool; a fee of 1000 bips
    /// or more is then refused with `InvalidPair`, the proposal staying executed.
    pub fn execute_governance_proposal(&mut self, block: u32, proposal_id: u64) -> (r: Result<bool, DexError>)
        requires
            old(self).wf(),
        ensures
            final(self).wf(),
            old(self)@.locked ==> r == Err::<bool, DexError>(DexError::ReentrantCall) && final(self)@
                == old(self)@,
            !old(self)@.locked && !old(self)@.governance_proposals.contains_key(proposal_id) ==> r
                == Err::<bool, DexError>(DexError::ProposalNotFound) && final(self)@ == old(self)@,
            !old(self)@.locked && old(self)@.governance_proposals.contains_key(proposal_id) ==> {
                let s = old(self)@;
                let p = s.governance_proposals[proposal_id];
                let passed = p.votes_for > p.votes_against;
                let s1 = DexState {
                    governance_proposals: s.governance_proposals.insert(
                        proposal_id,
                        DexProposal { executed: true, ..p },
                    ),
                    ..s
                };
                if p.executed || block as u64 <= p.end_block {
                    r == Err::<bool, DexError>(DexError::ProposalClosed) && final(self)@ == s
                } else if passed && p.new_fee_bips is Some {
                    let fee = p.new_fee_bips->0;
                    if fee >= 1_000 {
                        r == Err::<bool, DexError>(DexError::InvalidPair) && final(self)@ == s1
                    } else {
                        r == Ok::<bool, DexError>(true) && final(self)@ == DexState {
                            pools: fee_applied(s.pools, s.pair_counter, fee),
                            ..s1
                        }
                    }
                } else {
                    r == Ok::<bool, DexError>(passed) && final(self)@ == s1
                }
            },
    {
        if self.reentrancy_guard.locked {
            return Err(DexError::ReentrantCall);
        }
        let mut proposal = match self.governance_proposals.get(&proposal_id) {
            Some(p) => p.copy(),
            None => return Err(DexError::ProposalNotFound),
        };
        if proposal.executed {
            return Err(DexError::ProposalClosed);
        }
        let current_block = block as u64;
        if current_block <= proposal.end_block {
            return Err(DexError::ProposalClosed);
        }
        let passed = proposal.votes_for > proposal.votes_against;
        proposal.executed = true;
        let new_fee = proposal.new_fee_bips;
        let ghost p = proposal;
        self.governance_proposals.insert(proposal_id, proposal);
        assert(self@ =~= DexState {
            governance_proposals: old(self)@.governance_proposals.insert(proposal_id, p),
            ..old(self)@
        });
        if passed {
            match new_fee {
                Some(fee) => {
                    match self.apply_fee_to_all_pools(fee) {
                        Ok(()) => {},
                        Err(e) => return Err(e),
                    }
                },
                None => {},
            }
        }
        Ok(passed)
    }

    /// The governance-token balance of `account`.
    pub fn get_governance_balance(&self, account: AccountId) -> (r: u128)
        requires
            self.wf(),
        ensures
            r == get0(self@.governance_balances, account),
    {
        lookup_or(&self.governance_balances, &account, 0u128)
    }

    /// Blocks a scheduled admin change must wait.
    pub fn get_admin_timelock_delay(&self) -> (r: u64)
        ensures
            r == self@.admin_timelock_delay,
    {
        self.admin_timelock_delay
    }

    /// The admin sets the timelock delay directly, which is possible only while there is
    /// none.
    pub fn set_admin_timelock_delay(&mut self, caller: AccountId, delay_blocks: u64) -> (r: Result<(), DexError>)
        requires
            old(self).wf(),
        ensures
            final(self).wf(),
            caller != old(self)@.admin ==> r == Err::<(), DexError>(DexError::Unauthorized) && final(self)@ == old(self)@,
            caller == old(self)@.admin && old(self)@.admin_timelock_delay > 0 ==> r == Err::<
                (),
                DexError,
            >(DexError::TimelockRequired) && final(self)@ == old(self)@,
            caller == old(self)@.admin && old(self)@.admin_timelock_delay == 0 ==> r == Ok::<
                (),
                DexError,
            >(()) && final(self)@ == (DexState { admin_timelock_delay: delay_blocks, ..old(self)@ }),
    {
        if caller != self.admin {
            return Err(DexError::Unauthorized);
        }
        if self.admin_timelock_delay > 0 {
            return Err(DexError::TimelockRequired);
        }
        self.admin_timelock_delay = delay_blocks;
        assert(self@ =~= DexState { admin_timelock_delay: delay_blocks, ..old(self)@ });
        Ok(())
    }

    fn schedule_admin_action_internal(
        &mut self,
        caller: AccountId,
        block: u32,
        kind: AdminActionKind,
        payload: AdminActionPayload,
    ) -> (r: Result<u64, DexError>)
        requires
            old(self).wf(),
        ensures
            final(self).wf(),
            caller != old(self)@.admin ==> r == Err::<u64, DexError>(DexError::Unauthorized) && final(self)@ == old(self)@,
            caller == old(self)@.admin ==> r == Ok::<u64, DexError>(
                sadd64(old(self)@.pending_admin_action_counter, 1),
            ) && final(self)@ == with_scheduled(old(self)@, caller, block as u64, kind, payload),
    {
        if caller != self.admin {
            return Err(DexError::Unauthorized);
        }
        self.pending_admin_action_counter = self.pending_admin_action_counter.saturating_add(1);
        let action_id = self.pending_admin_action_counter;
        let scheduled_at = block as u64;
        let executable_at = scheduled_at.saturating_add(self.admin_timelock_delay);
        let action = PendingAdminAction {
            action_id,
            kind,
            payload,
            proposer: caller,
            scheduled_at,
            executable_at,
            status: AdminActionStatus::Scheduled,
        };
        let ghost a = action;
        self.pending_admin_actions.insert(action_id, action);
        assert(a == scheduled_action(old(self)@, caller, block as u64, kind, payload));
        assert(self@ =~= with_scheduled(old(self)@, caller, block as u64, kind, payload));
        Ok(action_id)
    }

    /// The admin schedules a bridge-route change, executable after the timelock delay.
    pub fn schedule_bridge_route_update(
        &mut self,
        caller: AccountId,
        block: u32,
        destination_chain: ChainId,
        gas_estimate: u64,
        protocol_fee: u128,
    ) -> (r: Result<u64, DexError>)
        requires
            old(self).wf(),
        ensures
            final(self).wf(),
            caller != old(self)@.admin ==> r == Err::<u64, DexError>(DexError::Unauthorized) && final(self)@ == old(self)@,
            caller == old(self)@.admin ==> {
                let id = sadd64(old(self)@.pending_admin_action_counter, 1);
                let a = final(self)@.pending_admin_actions[id];
                &&& r == Ok::<u64, DexError>(id)
                &&& payload_of(destination_chain, gas_estimate, protocol_fee, 0, 0, 0, Seq::empty(), 0, a.payload)
                &&& final(self)@ == with_scheduled(
                    old(self)@,
                    caller,
                    block as u64,
                    AdminActionKind::ConfigureBridgeRoute,
                    a.payload,
                )
            },
    {
        let payload = AdminActionPayload {
            destination_chain,
            gas_estimate,
            protocol_fee,
            emission_rate: 0,
            start_block: 0,
            end_block: 0,
            reward_token_symbol: String::new(),
            timelock_delay_blocks: 0,
        };
        self.schedule_admin_action_internal(caller, block, AdminActionKind::ConfigureBridgeRoute, payload)
    }

    /// The admin schedules a liquidity-mining campaign change, executable after the
    /// timelock delay.
    pub fn schedule_liquidity_mining_update(
        &mut self,
        caller: AccountId,
        block: u32,
        emission_rate: u128,
        start_block: u64,
        end_block: u64,
        reward_token_symbol: String,
    ) -> (r: Result<u64, DexError>)
        requires
            old(self).wf(),
        ensures
            final(self).wf(),
            caller != old(self)@.admin ==> r == Err::<u64, DexError>(DexError::Unauthorized) && final(self)@ == old(self)@,
            caller == old(self)@.admin ==> {
                let id = sadd64(old(self)@.pending_admin_action_counter, 1);
                let a = final(self)@.pending_admin_actions[id];
                &&& r == Ok::<u64, DexError>(id)
                &&& payload_of(0, 0, 0, emission_rate, start_block, end_block, reward_token_symbol@, 0, a.payload)
                &&& final(self)@ == with_scheduled(
                    old(self)@,
                    caller,
                    block as u64,
                    AdminActionKind::SetLiquidityMining,
                    a.payload,
                )
            },
    {
        let payload = AdminActionPayload {
            destination_chain: 0,
            gas_estimate: 0,
            protocol_fee: 0,
            emission_rate,
            start_block,
            end_block,
            reward_token_symbol,
            timelock_delay_blocks: 0,
        };
        self.schedule_admin_action_internal(caller, block, AdminActionKind::SetLiquidityMining, payload)
    }

    /// The admin schedules a change of the timelock delay, executable after the current
    /// delay.
    pub fn schedule_timelock_delay_update(&mut self, caller: AccountId, block: u32, delay_blocks: u64) -> (r:
        Result<u64, DexError>)
        requires
            old(self).wf(),
        ensures
            final(self).wf(),
            caller != old(self)@.admin ==> r == Err::<u64, DexError>(DexError::Unauthorized) && final(self)@ == old(self)@,
            caller == old(self)@.admin ==> {
                let id = sadd64(old(self)@.pending_admin_action_counter, 1);
                let a = final(self)@.pending_admin_actions[id];
                &&& r == Ok::<u64, DexError>(id)
                &&& payload_of(0, 0, 0, 0, 0, 0, Seq::empty(), delay_blocks, a.payload)
                &&& final(self)@ == with_scheduled(
                    old(self)@,
                    caller,
                    block as u64,
                    AdminActionKind::UpdateTimelockDelay,
                    a.payload,
                )
            },
    {
        let payload = AdminActionPayload {
            destination_chain: 0,
            gas_estimate: 0,
            protocol_fee: 0,
            emission_rate: 0,
            start_block: 0,
            end_block: 0,
            reward_token_symbol: String::new(),
            timelock_delay_blocks: delay_blocks,
        };
        self.schedule_admin_action_internal(caller, block, AdminActionKind::UpdateTimelockDelay, payload)
    }

    /// The admin carries out a scheduled change once its timelock has passed.
    pub fn execute_admin_action(&mut self, caller: AccountId, block: u32, action_id: u64) -> (r: Result<
        (),
        DexError,
    >)
        requires
            old(self).wf(),
        ensures
            final(self).wf(),
            ({
                let s = old(self)@;
                if caller != s.admin {
                    r == Err::<(), DexError>(DexError::Unauthorized) && final(self)@ == s
                } else if !s.pending_admin_actions.contains_key(action_id) {
                    r == Err::<(), DexError>(DexError::AdminActionNotFound) && final(self)@ == s
                } else {
                    let a = s.pending_admin_actions[action_id];
                    if a.status != AdminActionStatus::Scheduled {
                        r == Err::<(), DexError>(DexError::AdminActionAlreadyFinalized) && final(self)@
                            == s
                    } else if (block as u64) < a.executable_at {
                        r == Err::<(), DexError>(DexError::TimelockActive) && final(self)@ == s
                    } else {
                        let s1 = applied(s, a);
                        r == Ok::<(), DexError>(()) && final(self)@ == DexState {
                            pending_admin_actions: s1.pending_admin_actions.insert(
                                action_id,
                                PendingAdminAction { status: AdminActionStatus::Executed, ..a },
                            ),
                            ..s1
                        }
                    }
                }
            }),
    {
        if caller != self.admin {
            return Err(DexError::Unauthorized);
        }
        let mut action = match self.pending_admin_actions.get(&action_id) {
            Some(a) => a.copy(),
            None => return Err(DexError::AdminActionNotFound),
        };
        if action.status != AdminActionStatus::Scheduled {
            return Err(DexError::AdminActionAlreadyFinalized);
        }
        if (block as u64) < action.executable_at {
            return Err(DexError::TimelockActive);
        }
        match action.kind {
            AdminActionKind::ConfigureBridgeRoute => {
                self.apply_configure_bridge_route(
                    action.payload.destination_chain,
                    action.payload.gas_estimate,
                    action.payload.protocol_fee,
                );
            },
            AdminActionKind::SetLiquidityMining => {
                self.apply_set_liquidity_mining(
                    action.payload.emission_rate,
                    action.payload.start_block,
                    action.payload.end_block,
                    action.payload.reward_token_symbol.clone(),
                );
            },
            AdminActionKind::UpdateTimelockDelay => {
                self.admin_timelock_delay = action.payload.timelock_delay_blocks;
            },
        }
        let ghost s1 = self@;
        assert(s1 =~= applied(old(self)@, old(self)@.pending_admin_actions[action_id]));
        action.status = AdminActionStatus::Executed;
        let ghost a = action;
        self.pending_admin_actions.insert(action_id, action);
        assert(self@ =~= DexState {
            pending_admin_actions: s1.pending_admin_actions.insert(action_id, a),
            ..s1
        });
        Ok(())
    }

    /// The admin cancels a scheduled change.
    pub fn cancel_admin_action(&mut self, caller: AccountId, action_id: u64) -> (r: Result<(), DexError>)
        requires
            old(self).wf(),
        ensures
            final(self).wf(),
            ({
                let s = old(self)@;
                if caller != s.admin {
                    r == Err::<(), DexError>(DexError::Unauthorized) && final(self)@ == s
                } else if !s.pending_admin_actions.contains_key(action_id) {
                    r == Err::<(), DexError>(DexError::AdminActionNotFound) && final(self)@ == s
                } else {
                    let a = s.pending_admin_actions[action_id];
                    if a.status != AdminActionStatus::Scheduled {
                        r == Err::<(), DexError>(DexError::AdminActionAlreadyFinalized) && final(self)@
                            == s
                    } else {
                        r == Ok::<(), DexError>(()) && final(self)@ == DexState {
                            pending_admin_actions: s.pending_admin_actions.insert(
                                action_id,
                                PendingAdminAction { status: AdminActionStatus::Cancelled, ..a },
                            ),
                            ..s
                        }
                    }
                }
            }),
    {
        if caller != self.admin {
            return Err(DexError::Unauthorized);
        }
        let mut action = match self.pending_admin_actions.get(&action_id) {
            Some(a) => a.copy(),
            None => return Err(DexError::AdminActionNotFound),
        };
        if action.status != AdminActionStatus::Scheduled {
            return Err(DexError::AdminActionAlreadyFinalized);
        }
        action.status = AdminActionStatus::Cancelled;
        let ghost a = action;
        self.pending_admin_actions.insert(action_id, action);
        assert(self@ =~= DexState {
            pending_admin_actions: old(self)@.pending_admin_actions.insert(action_id, a),
            ..old(self)@
        });
        Ok(())
    }

    /// The scheduled admin change `action_id`, if there is one.
    pub fn get_scheduled_admin_action(&self, action_id: u64) -> (r: Option<PendingAdminAction>)
        requires
            self.wf(),
        ensures
            r == if self@.pending_admin_actions.contains_key(action_id) {
                Some(self@.pending_admin_actions[action_id])
            } else {
                None::<PendingAdminAction>
            },
    {
        match self.pending_admin_actions.get(&action_id) {
            Some(a) => Some(a.copy()),
            None => None,
        }
    }
}

} // verus!
