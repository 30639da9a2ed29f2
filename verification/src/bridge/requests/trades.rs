//! Cross-chain trade settlements the bridge tracks for the exchange: fee quotes,
//! registration under the hourly-volume breaker and the daily chain limit, and the
//! trade's progress to settlement.
use vstd::prelude::*;
use vstd::string::StringExecFns;

use crate::bridge::requests::{day_of, LedgerState, CURRENT_CHAIN_ID, DAY_MS, HOUR_MS};
use crate::bridge::{
    flags_for, gas_estimate, listed_chain, op_paused, paused_state, pause_flags_for_reason, BridgeError,
    BridgeOperation, BridgeState, ChainId, PauseReason, PropertyBridge,
};
use crate::common::{get_or, is_listed, listed, lookup_or, ssub64, AccountId};
use crate::dex::{BridgeFeeQuote, CrossChainTradeIntent, CrossChainTradeStatus};
use crate::math::{sadd, smul};

verus! {

/// The fee quote for bridging `amount_in` to `destination_chain`: half a percent of
/// protocol fee, plus a gas fee that grows with the share of the gas limit the transfer
/// uses and with the chain's confirmation depth, capped at a quarter of the amount.
pub open spec fn trade_quote(s: BridgeState, destination_chain: ChainId, amount_in: u128) -> Result<
    BridgeFeeQuote,
    BridgeError,
> {
    if !s.chain_info.contains_key(destination_chain) || !s.chain_info[destination_chain].is_active {
        Err(BridgeError::InvalidChain)
    } else {
        let info = s.chain_info[destination_chain];
        let gas = gas_estimate(s, info);
        let protocol_fee = amount_in / 200;
        let gas_fee: u128 = if s.gas_limit_per_bridge == 0 {
            0
        } else {
            let ratio = smul(gas as u128, 10_000) / (s.gas_limit_per_bridge as u128);
            let risk = smul(info.confirmation_blocks as u128, 10);
            let raw = sadd(ratio, risk);
            let adjusted: u128 = if raw < 2_500 {
                raw
            } else {
                2_500
            };
            smul(amount_in, adjusted) / 10_000
        };
        Ok(
            BridgeFeeQuote {
                destination_chain,
                gas_estimate: gas,
                protocol_fee,
                total_fee: sadd(protocol_fee, gas_fee),
            },
        )
    }
}

/// Whether the hourly volume window of `chain` is still open at `now`.
pub open spec fn hourly_window_open(l: LedgerState, chain: ChainId, now: u64) -> bool {
    ssub64(now, get_or(l.chain_hourly_window_start, chain, 0u64)) < HOUR_MS
}

/// The hourly volume of `chain` once `amount` more is counted at `now`.
pub open spec fn hourly_volume_after(l: LedgerState, chain: ChainId, now: u64, amount: u128) -> u128 {
    let base: u128 = if hourly_window_open(l, chain, now) {
        get_or(l.chain_hourly_volume, chain, 0u128)
    } else {
        0
    };
    sadd(base, amount)
}

/// The hourly counters once `amount` more for `chain` is counted at `now` (a closed
/// window restarts at `now`).
pub open spec fn volume_tracked(l: LedgerState, chain: ChainId, now: u64, amount: u128) -> LedgerState {
    let l1 = if hourly_window_open(l, chain, now) {
        l
    } else {
        LedgerState { chain_hourly_window_start: l.chain_hourly_window_start.insert(chain, now), ..l }
    };
    LedgerState {
        chain_hourly_volume: l1.chain_hourly_volume.insert(chain, hourly_volume_after(l, chain, now, amount)),
        ..l1
    }
}

/// Whether the hourly volume breaker watches a trade of `amount`.
pub open spec fn volume_watched(s: BridgeState, amount: u128) -> bool {
    s.suspicious_config.auto_pause_enabled && amount != 0
}

/// Whether counting `amount` for `chain` at `now` trips the hourly volume breaker.
pub open spec fn volume_trips(s: BridgeState, l: LedgerState, chain: ChainId, now: u64, amount: u128) -> bool {
    let threshold = s.suspicious_config.max_volume_per_hour_per_chain;
    volume_watched(s, amount) && threshold > 0 && hourly_volume_after(l, chain, now, amount) >= threshold
}

/// The note the breaker records when the hourly volume trips it.
pub open spec fn volume_note() -> Seq<char> {
    "Auto: chain hourly volume"@
}

/// The volume `chain` carried today, as the daily limit counts it at `timestamp`.
pub open spec fn chain_volume_today(l: LedgerState, chain: ChainId, timestamp: u64) -> u128 {
    if get_or(l.chain_last_reset_day, chain, 0u64) < day_of(timestamp) {
        0
    } else {
        get_or(l.chain_daily_volume, chain, 0u128)
    }
}

/// The daily counters of `chain` after the limit looks at it at `timestamp`.
pub open spec fn chain_day_rolled(l: LedgerState, chain: ChainId, timestamp: u64) -> LedgerState {
    if get_or(l.chain_last_reset_day, chain, 0u64) < day_of(timestamp) {
        LedgerState { chain_last_reset_day: l.chain_last_reset_day.insert(chain, day_of(timestamp)), ..l }
    } else {
        l
    }
}

/// The daily chain limit applied to a trade of `amount` to `chain` at `timestamp`: the
/// counters afterwards, and the refusal if there is one.
pub open spec fn volume_limited(s: BridgeState, l: LedgerState, chain: ChainId, timestamp: u64, amount: u128) -> (
    LedgerState,
    Option<BridgeError>,
) {
    if !s.rate_limit_enabled || amount == 0 {
        (l, None)
    } else if !s.chain_info.contains_key(chain) {
        (l, Some(BridgeError::InvalidChain))
    } else {
        let l1 = chain_day_rolled(l, chain, timestamp);
        let v = chain_volume_today(l, chain, timestamp);
        if sadd(v, amount) > s.chain_info[chain].chain_daily_limit {
            (l1, Some(BridgeError::RateLimitExceeded))
        } else {
            (LedgerState { chain_daily_volume: l1.chain_daily_volume.insert(chain, (v + amount) as u128), ..l1 }, None)
        }
    }
}

/// Whether the daily chain volume would overflow: only when the chain's limit is the
/// largest amount there is.
pub open spec fn volume_overflows(s: BridgeState, l: LedgerState, chain: ChainId, timestamp: u64, amount: u128) -> bool {
    &&& s.rate_limit_enabled
    &&& amount != 0
    &&& s.chain_info.contains_key(chain)
    &&& s.chain_info[chain].chain_daily_limit == u128::MAX
    &&& chain_volume_today(l, chain, timestamp) + amount > u128::MAX
}

/// The ledger with trade `id` replaced by `t`.
pub open spec fn with_trade(l: LedgerState, id: u64, t: CrossChainTradeIntent) -> LedgerState {
    LedgerState { trades: l.trades.insert(id, t), ..l }
}

impl PropertyBridge {
    /// The fee quote for bridging `amount_in` to `destination_chain` (see [`trade_quote`]).
    pub fn quote_cross_chain_trade(&self, destination_chain: ChainId, amount_in: u128) -> (r: Result<
        BridgeFeeQuote,
        BridgeError,
    >)
        requires
            self.wf(),
        ensures
            r == trade_quote(self@, destination_chain, amount_in),
    {
        let confirmations = match self.chain_info.get(&destination_chain) {
            Some(i) => i.confirmation_blocks,
            None => return Err(BridgeError::InvalidChain),
        };
        let gas = match self.estimate_bridge_gas(0, destination_chain) {
            Ok(g) => g,
            Err(e) => return Err(e),
        };
        let protocol_fee = amount_in / 200;
        let gas_fee: u128 = if self.config.gas_limit_per_bridge == 0 {
            0
        } else {
            let ratio = crate::math::sat_mul(gas as u128, 10_000) / (self.config.gas_limit_per_bridge as u128);
            let risk = crate::math::sat_mul(confirmations as u128, 10);
            let raw = crate::math::sat_add(ratio, risk);
            let adjusted: u128 = if raw < 2_500 {
                raw
            } else {
                2_500
            };
            crate::math::sat_mul(amount_in, adjusted) / 10_000
        };
        Ok(
            BridgeFeeQuote {
                destination_chain,
                gas_estimate: gas,
                protocol_fee,
                total_fee: crate::math::sat_add(protocol_fee, gas_fee),
            },
        )
    }

    fn track_chain_volume(
        &mut self,
        account: AccountId,
        chain: ChainId,
        amount: u128,
        block: u64,
        timestamp: u64,
    ) -> (r: Result<(), BridgeError>)
        requires
            old(self).wf(),
        ensures
            final(self).wf(),
            !volume_watched(old(self)@, amount) ==> r == Ok::<(), BridgeError>(()) && final(self)@ == old(self)@
                && final(self).ledger() == old(self).ledger(),
            volume_watched(old(self)@, amount) ==> final(self).ledger() == volume_tracked(
                old(self).ledger(),
                chain,
                timestamp,
                amount,
            ),
            volume_watched(old(self)@, amount) && !volume_trips(old(self)@, old(self).ledger(), chain, timestamp, amount)
                ==> r == Ok::<(), BridgeError>(()) && final(self)@ == old(self)@,
            volume_trips(old(self)@, old(self).ledger(), chain, timestamp, amount) ==> r == Err::<(), BridgeError>(
                BridgeError::OperationPaused,
            ) && exists|d: String|
                d@ == volume_note() && final(self)@ == #[trigger] paused_state(
                old(self)@,
                account,
                flags_for(PauseReason::SuspiciousVolume),
                PauseReason::SuspiciousVolume,
                Some(d),
                block,
                timestamp,
            ),
    {
        if !self.suspicious_config.auto_pause_enabled || amount == 0 {
            return Ok(());
        }
        let ghost l0 = self.ledger@;
        let window_start = lookup_or(&self.ledger.chain_hourly_window_start, &chain, 0u64);
        let base: u128 = if timestamp.saturating_sub(window_start) < HOUR_MS {
            lookup_or(&self.ledger.chain_hourly_volume, &chain, 0u128)
        } else {
            self.ledger.chain_hourly_window_start.insert(chain, timestamp);
            0
        };
        let volume = crate::math::sat_add(base, amount);
        self.ledger.chain_hourly_volume.insert(chain, volume);
        assert(self.ledger@ =~= volume_tracked(l0, chain, timestamp, amount));
        let threshold = self.suspicious_config.max_volume_per_hour_per_chain;
        if threshold > 0 && volume >= threshold {
            let flags = pause_flags_for_reason(PauseReason::SuspiciousVolume);
            let note = String::from_str("Auto: chain hourly volume");
            proof {
                reveal_strlit("Auto: chain hourly volume");
            }
            let ghost d = note;
            self.apply_pause(account, flags, PauseReason::SuspiciousVolume, Some(note), block, timestamp);
            assert(self@ == paused_state(
                old(self)@,
                account,
                flags_for(PauseReason::SuspiciousVolume),
                PauseReason::SuspiciousVolume,
                Some(d),
                block,
                timestamp,
            ));
            return Err(BridgeError::OperationPaused);
        }
        Ok(())
    }

    fn limit_chain_volume(&mut self, chain: ChainId, timestamp: u64, amount: u128) -> (r: Result<(), BridgeError>)
        requires
            old(self).wf(),
            !volume_overflows(old(self)@, old(self).ledger(), chain, timestamp, amount),
        ensures
            final(self).wf(),
            final(self)@ == old(self)@,
            final(self).ledger() == volume_limited(old(self)@, old(self).ledger(), chain, timestamp, amount).0,
            r == match volume_limited(old(self)@, old(self).ledger(), chain, timestamp, amount).1 {
                Some(e) => Err::<(), BridgeError>(e),
                None => Ok::<(), BridgeError>(()),
            },
    {
        if !self.config.rate_limit_enabled || amount == 0 {
            return Ok(());
        }
        let limit = match self.chain_info.get(&chain) {
            Some(i) => i.chain_daily_limit,
            None => return Err(BridgeError::InvalidChain),
        };
        let ghost l0 = self.ledger@;
        let day = timestamp / DAY_MS;
        let last = lookup_or(&self.ledger.chain_last_reset_day, &chain, 0u64);
        let volume: u128 = if last < day {
            self.ledger.chain_last_reset_day.insert(chain, day);
            0
        } else {
            lookup_or(&self.ledger.chain_daily_volume, &chain, 0u128)
        };
        assert(self.ledger@ =~= crate::bridge::requests::trades::chain_day_rolled(l0, chain, timestamp));
        if crate::math::sat_add(volume, amount) > limit {
            return Err(BridgeError::RateLimitExceeded);
        }
        self.ledger.chain_daily_volume.insert(chain, volume + amount);
        assert(self.ledger@ =~= volume_limited(old(self)@, l0, chain, timestamp, amount).0);
        Ok(())
    }

    /// `caller` registers a trade whose proceeds (`amount_in` traded on pair `pair_id`,
    /// at least `min_amount_out`) go to `recipient` on `destination_chain`. Refused
    /// while cross-chain trades are paused and for an unsupported chain; the trade then
    /// counts towards the chain's hourly volume (tripping the breaker refuses it and
    /// pauses cross-chain trades) and its daily limit, takes the next trade number and
    /// is quoted, and is stored pending.
    pub fn register_cross_chain_trade(
        &mut self,
        caller: AccountId,
        block: u64,
        timestamp: u64,
        pair_id: u64,
        order_id: Option<u64>,
        destination_chain: ChainId,
        recipient: AccountId,
        amount_in: u128,
        min_amount_out: u128,
    ) -> (r: Result<u64, BridgeError>)
        requires
            old(self).wf(),
            old(self).ledger().trade_counter < u64::MAX,
            !volume_overflows(
                old(self)@,
                if volume_watched(old(self)@, amount_in) {
                    volume_tracked(old(self).ledger(), destination_chain, timestamp, amount_in)
                } else {
                    old(self).ledger()
                },
                destination_chain,
                timestamp,
                amount_in,
            ),
        ensures
            final(self).wf(),
            ({
                let s = old(self)@;
                let l = old(self).ledger();
                let l1 = if volume_watched(s, amount_in) {
                    volume_tracked(l, destination_chain, timestamp, amount_in)
                } else {
                    l
                };
                let (l2, limited) = volume_limited(s, l1, destination_chain, timestamp, amount_in);
                let id = (l.trade_counter + 1) as u64;
                let l3 = LedgerState { trade_counter: id, ..l2 };
                if op_paused(s, BridgeOperation::CrossChainTrade) {
                    r == Err::<u64, BridgeError>(BridgeError::OperationPaused) && final(self)@ == s
                        && final(self).ledger() == l
                } else if !listed_chain(s.supported_chains, destination_chain) {
                    r == Err::<u64, BridgeError>(BridgeError::InvalidChain) && final(self)@ == s
                        && final(self).ledger() == l
                } else if volume_trips(s, l, destination_chain, timestamp, amount_in) {
                    &&& r == Err::<u64, BridgeError>(BridgeError::OperationPaused)
                    &&& final(self).ledger() == l1
                    &&& exists|d: String|
                        d@ == volume_note() && final(self)@ == #[trigger] paused_state(
                            s,
                            caller,
                            flags_for(PauseReason::SuspiciousVolume),
                            PauseReason::SuspiciousVolume,
                            Some(d),
                            block,
                            timestamp,
                        )
                } else {
                    &&& final(self)@ == s
                    &&& match limited {
                        Some(e) => r == Err::<u64, BridgeError>(e) && final(self).ledger() == l2,
                        None => match trade_quote(s, destination_chain, amount_in) {
                            Err(e) => r == Err::<u64, BridgeError>(e) && final(self).ledger() == l3,
                            Ok(q) => r == Ok::<u64, BridgeError>(id) && final(self).ledger() == with_trade(
                                l3,
                                id,
                                CrossChainTradeIntent {
                                    trade_id: id,
                                    pair_id,
                                    order_id,
                                    source_chain: CURRENT_CHAIN_ID,
                                    destination_chain,
                                    trader: caller,
                                    recipient,
                                    amount_in,
                                    min_amount_out,
                                    bridge_request_id: None,
                                    bridge_fee_quote: q,
                                    status: CrossChainTradeStatus::Pending,
                                    created_at: timestamp,
                                },
                            ),
                        },
                    }
                }
            }),
    {
        if self.is_operation_paused(BridgeOperation::CrossChainTrade) {
            return Err(BridgeError::OperationPaused);
        }
        if !crate::bridge::contains_chain(&self.config.supported_chains, destination_chain) {
            return Err(BridgeError::InvalidChain);
        }
        match self.track_chain_volume(caller, destination_chain, amount_in, block, timestamp) {
            Ok(()) => {},
            Err(e) => return Err(e),
        }
        match self.limit_chain_volume(destination_chain, timestamp, amount_in) {
            Ok(()) => {},
            Err(e) => return Err(e),
        }
        let ghost l2 = self.ledger@;
        self.ledger.trade_counter = self.ledger.trade_counter + 1;
        let trade_id = self.ledger.trade_counter;
        assert(self.ledger@ =~= LedgerState { trade_counter: trade_id, ..l2 });
        let quote = match self.quote_cross_chain_trade(destination_chain, amount_in) {
            Ok(q) => q,
            Err(e) => return Err(e),
        };
        let ghost l3 = self.ledger@;
        let intent = CrossChainTradeIntent {
            trade_id,
            pair_id,
            order_id,
            source_chain: CURRENT_CHAIN_ID,
            destination_chain,
            trader: caller,
            recipient,
            amount_in,
            min_amount_out,
            bridge_request_id: None,
            bridge_fee_quote: quote,
            status: CrossChainTradeStatus::Pending,
            created_at: timestamp,
        };
        self.ledger.trades.insert(trade_id, intent);
        assert(self.ledger@ =~= with_trade(l3, trade_id, intent));
        Ok(trade_id)
    }

    /// The trader (or the admin, also while cross-chain trades are paused) records the
    /// bridge request that carries trade `trade_id`.
    pub fn attach_bridge_request_to_trade(&mut self, caller: AccountId, trade_id: u64, bridge_request_id: u64) -> (r:
        Result<(), BridgeError>)
        requires
            old(self).wf(),
        ensures
            final(self).wf(),
            final(self)@ == old(self)@,
            ({
                let s = old(self)@;
                let l = old(self).ledger();
                if caller != s.admin && op_paused(s, BridgeOperation::CrossChainTrade) {
                    r == Err::<(), BridgeError>(BridgeError::OperationPaused) && final(self).ledger() == l
                } else if !l.trades.contains_key(trade_id) {
                    r == Err::<(), BridgeError>(BridgeError::InvalidRequest) && final(self).ledger() == l
                } else if caller != l.trades[trade_id].trader && caller != s.admin {
                    r == Err::<(), BridgeError>(BridgeError::Unauthorized) && final(self).ledger() == l
                } else {
                    r == Ok::<(), BridgeError>(()) && final(self).ledger() == with_trade(
                        l,
                        trade_id,
                        CrossChainTradeIntent {
                            bridge_request_id: Some(bridge_request_id),
                            status: CrossChainTradeStatus::BridgeRequested,
                            ..l.trades[trade_id]
                        },
                    )
                }
            }),
    {
        if caller != self.admin && self.is_operation_paused(BridgeOperation::CrossChainTrade) {
            return Err(BridgeError::OperationPaused);
        }
        let mut trade = match self.ledger.trades.get(&trade_id) {
            Some(t) => *t,
            None => return Err(BridgeError::InvalidRequest),
        };
        if caller != trade.trader && caller != self.admin {
            return Err(BridgeError::Unauthorized);
        }
        trade.bridge_request_id = Some(bridge_request_id);
        trade.status = CrossChainTradeStatus::BridgeRequested;
        self.ledger.trades.insert(trade_id, trade);
        assert(self.ledger@ =~= with_trade(old(self).ledger(), trade_id, trade));
        Ok(())
    }

    /// The admin or an operator (the latter not while cross-chain trades are paused)
    /// marks trade `trade_id` settled.
    pub fn settle_cross_chain_trade(&mut self, caller: AccountId, trade_id: u64) -> (r: Result<(), BridgeError>)
        requires
            old(self).wf(),
        ensures
            final(self).wf(),
            final(self)@ == old(self)@,
            ({
                let s = old(self)@;
                let l = old(self).ledger();
                if caller != s.admin && !listed(s.operators, caller) {
                    r == Err::<(), BridgeError>(BridgeError::Unauthorized) && final(self).ledger() == l
                } else if caller != s.admin && op_paused(s, BridgeOperation::CrossChainTrade) {
                    r == Err::<(), BridgeError>(BridgeError::OperationPaused) && final(self).ledger() == l
                } else if !l.trades.contains_key(trade_id) {
                    r == Err::<(), BridgeError>(BridgeError::InvalidRequest) && final(self).ledger() == l
                } else {
                    r == Ok::<(), BridgeError>(()) && final(self).ledger() == with_trade(
                        l,
                        trade_id,
                        CrossChainTradeIntent { status: CrossChainTradeStatus::Settled, ..l.trades[trade_id] },
                    )
                }
            }),
    {
        if caller != self.admin && !is_listed(&self.bridge_operators, caller) {
            return Err(BridgeError::Unauthorized);
        }
        if caller != self.admin && self.is_operation_paused(BridgeOperation::CrossChainTrade) {
            return Err(BridgeError::OperationPaused);
        }
        let mut trade = match self.ledger.trades.get(&trade_id) {
            Some(t) => *t,
            None => return Err(BridgeError::InvalidRequest),
        };
        trade.status = CrossChainTradeStatus::Settled;
        self.ledger.trades.insert(trade_id, trade);
        assert(self.ledger@ =~= with_trade(old(self).ledger(), trade_id, trade));
        Ok(())
    }

    /// Trade `trade_id`, if there is one.
    pub fn get_cross_chain_trade(&self, trade_id: u64) -> (r: Option<CrossChainTradeIntent>)
        requires
            self.wf(),
        ensures
            r == if self.ledger().trades.contains_key(trade_id) {
                Some(self.ledger().trades[trade_id])
            } else {
                None::<CrossChainTradeIntent>
            },
    {
        match self.ledger.trades.get(&trade_id) {
            Some(t) => Some(*t),
            None => None,
        }
    }
}

} // verus!
