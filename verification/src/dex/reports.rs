//! Read-only views of the exchange: pools, analytics, portfolios, price impact and
//! exchange-wide statistics.
use vstd::prelude::*;

use crate::common::{get0, get_or, lookup_or, sadd32, sadd64, AccountId};
use crate::dex::{
    amount_out_for, fee_adjusted, is_live, position_of, reserves_for, CrossChainTradeStatus,
    DexError, DexState, LiquidityPool, OrderSide, PairAnalytics, PortfolioSnapshot,
    PriceHistory, PropertyDex, TradingStatistics, VolumeAnalytics,
};
use crate::math::{
    abs_diff, div_or_zero, sabs_diff, sadd, sat_mul, sdiv, smul, ssub, BIPS_DENOMINATOR,
};

verus! {

/// Liquidity positions of `account` among pools 1 to `n`: their number, their pending
/// rewards and the quote value of their shares.
pub open spec fn lp_summary(s: DexState, account: AccountId, n: u64) -> (u64, u128, u128)
    decreases n,
{
    if n == 0 {
        (0, 0, 0)
    } else {
        let prev = lp_summary(s, account, (n - 1) as u64);
        let pos = position_of(s, n, account);
        if !s.pools.contains_key(n) || pos.lp_shares == 0 {
            prev
        } else {
            let p = s.pools[n];
            let value = if p.total_lp_shares > 0 {
                smul(pos.lp_shares, p.reserve_quote) / p.total_lp_shares
            } else {
                0
            };
            (sadd64(prev.0, 1), sadd(prev.1, pos.pending_rewards), sadd(prev.2, value))
        }
    }
}

/// Orders 1 to `n` of `account` still on the book.
pub open spec fn open_order_count(s: DexState, account: AccountId, n: u64) -> u64
    decreases n,
{
    if n == 0 {
        0
    } else {
        let prev = open_order_count(s, account, (n - 1) as u64);
        if s.orders.contains_key(n) && s.orders[n].trader == account && is_live(s.orders[n].status) {
            sadd64(prev, 1)
        } else {
            prev
        }
    }
}

/// Cross-chain trades 1 to `n` of `account` neither settled nor cancelled.
pub open spec fn open_trade_count(s: DexState, account: AccountId, n: u64) -> u64
    decreases n,
{
    if n == 0 {
        0
    } else {
        let prev = open_trade_count(s, account, (n - 1) as u64);
        if s.cross_chain_trades.contains_key(n) && s.cross_chain_trades[n].trader == account
            && s.cross_chain_trades[n].status != CrossChainTradeStatus::Settled
            && s.cross_chain_trades[n].status != CrossChainTradeStatus::Cancelled {
            sadd64(prev, 1)
        } else {
            prev
        }
    }
}

/// The portfolio of `account`.
pub open spec fn portfolio(s: DexState, account: AccountId) -> PortfolioSnapshot {
    let lp = lp_summary(s, account, s.pair_counter);
    PortfolioSnapshot {
        owner: account,
        liquidity_positions: lp.0,
        open_orders: open_order_count(s, account, s.order_counter),
        pending_rewards: lp.1,
        governance_balance: get0(s.governance_balances, account),
        estimated_inventory_value: lp.2,
        cross_chain_positions: open_trade_count(s, account, s.cross_chain_trade_counter),
    }
}

/// The price impact, in bips, and the output of a trade of `amount_in` on `side`
/// of pool `p` (whose reserves on that side are both positive).
pub open spec fn price_impact(p: LiquidityPool, side: OrderSide, amount_in: u128) -> (u32, u128) {
    let (rin, rout) = reserves_for(p, side);
    let out = amount_out_for(p, side, amount_in);
    let before = smul(rout, BIPS_DENOMINATOR) / rin;
    let rin_after = sadd(rin, amount_in);
    let after = if rin_after > 0 {
        smul(ssub(rout, out), BIPS_DENOMINATOR) / rin_after
    } else {
        0
    };
    let bips = if before > 0 {
        (smul(sabs_diff(before, after), BIPS_DENOMINATOR) / before) as u32
    } else {
        0
    };
    (bips, out)
}

proof fn lemma_smul_monotone(a: u128, b: u128, c: u128)
    requires
        a <= b,
    ensures
        smul(a, c) <= smul(b, c),
        smul(a, c) <= a * c,
{
    assert(a * c <= b * c) by (nonlinear_arith)
        requires
            a <= b,
            c >= 0,
    ;
}

/// A bigger trade on the same pool moves the price at least as much and pays out at
/// least as much, as long as nothing saturates: the fee scaling, the output product and
/// the reserve paid into all fit.
pub proof fn lemma_price_impact_monotone(p: LiquidityPool, side: OrderSide, small: u128, large: u128)
    requires
        0 < small <= large,
        reserves_for(p, side).0 > 0,
        reserves_for(p, side).1 > 0,
        reserves_for(p, side).0 + large <= u128::MAX,
        large * BIPS_DENOMINATOR <= u128::MAX,
        fee_adjusted(large, p.fee_bips) * reserves_for(p, side).1 <= u128::MAX,
        p.fee_bips <= 10_000,
    ensures
        price_impact(p, side, small).0 <= price_impact(p, side, large).0,
        price_impact(p, side, small).1 <= price_impact(p, side, large).1,
{
    let (rin, rout) = reserves_for(p, side);
    let keep = ssub(BIPS_DENOMINATOR, p.fee_bips as u128);
    assert(large * keep <= large * 10_000) by (nonlinear_arith)
        requires
            keep <= 10_000,
            large >= 0,
    ;
    assert(fee_adjusted(large, p.fee_bips) <= large) by {
        vstd::arithmetic::div_mod::lemma_div_is_ordered(large * keep, large * 10_000, 10_000);
        vstd::arithmetic::div_mod::lemma_div_multiples_vanish(large as int, 10_000);
        assert(large * 10_000 == 10_000 * large) by (nonlinear_arith);
    }
    crate::dex::lemma_swap_output_monotone(p, side, small, large);
    crate::dex::lemma_swap_keeps_k(p, side, small);
    crate::dex::lemma_swap_keeps_k(p, side, large);
    let out1 = amount_out_for(p, side, small);
    let out2 = amount_out_for(p, side, large);
    let before = smul(rout, BIPS_DENOMINATOR) / rin;
    let x1 = smul(ssub(rout, out1), BIPS_DENOMINATOR);
    let x2 = smul(ssub(rout, out2), BIPS_DENOMINATOR);
    lemma_smul_monotone(ssub(rout, out2), ssub(rout, out1), BIPS_DENOMINATOR);
    lemma_smul_monotone(ssub(rout, out1), rout, BIPS_DENOMINATOR);
    let d1 = rin + small;
    let d2 = rin + large;
    assert(sadd(rin, small) == d1 && sadd(rin, large) == d2);
    let after1 = x1 / (d1 as u128);
    let after2 = x2 / (d2 as u128);
    vstd::arithmetic::div_mod::lemma_div_is_ordered(x2 as int, x1 as int, d2);
    vstd::arithmetic::div_mod::lemma_div_is_ordered_by_denominator(x1 as int, d1, d2);
    assert(after2 <= after1);
    vstd::arithmetic::div_mod::lemma_div_is_ordered(x1 as int, smul(rout, BIPS_DENOMINATOR) as int, d1);
    vstd::arithmetic::div_mod::lemma_div_is_ordered_by_denominator(smul(rout, BIPS_DENOMINATOR) as int, rin as int, d1);
    assert(after1 <= before);
    if before > 0 {
        let diff1 = sabs_diff(before, after1);
        let diff2 = sabs_diff(before, after2);
        assert(diff1 <= diff2 && diff2 <= before);
        lemma_smul_monotone(diff1, diff2, BIPS_DENOMINATOR);
        lemma_smul_monotone(diff2, before, BIPS_DENOMINATOR);
        let v1 = smul(diff1, BIPS_DENOMINATOR) / before;
        let v2 = smul(diff2, BIPS_DENOMINATOR) / before;
        vstd::arithmetic::div_mod::lemma_div_is_ordered(
            smul(diff1, BIPS_DENOMINATOR) as int,
            smul(diff2, BIPS_DENOMINATOR) as int,
            before as int,
        );
        assert(before * 10_000 == 10_000 * before) by (nonlinear_arith);
        vstd::arithmetic::div_mod::lemma_div_multiples_vanish(10_000, before as int);
        vstd::arithmetic::div_mod::lemma_div_is_ordered(
            smul(diff2, BIPS_DENOMINATOR) as int,
            before * 10_000,
            before as int,
        );
        assert(v1 <= v2 && v2 <= 10_000);
    }
}

/// Totals over the analytics of pairs 1 to `n`: 24h volume, 24h trades, summed
/// volatility, pairs counted, and the first pair with the most trades and with the most
/// volume (with those maxima).
pub open spec fn stats_upto(s: DexState, n: u64) -> (u128, u64, u32, u32, Option<u64>, u64, Option<u64>, u128)
    decreases n,
{
    if n == 0 {
        (0, 0, 0, 0, None, 0, None, 0)
    } else {
        let prev = stats_upto(s, (n - 1) as u64);
        if !s.analytics.contains_key(n) {
            prev
        } else {
            let a = s.analytics[n];
            let (most, max_trades) = if a.trade_count_24h > prev.5 {
                (Some(n), a.trade_count_24h)
            } else {
                (prev.4, prev.5)
            };
            let (highest, max_volume) = if a.volume_24h > prev.7 {
                (Some(n), a.volume_24h)
            } else {
                (prev.6, prev.7)
            };
            (
                sadd(prev.0, a.volume_24h),
                sadd64(prev.1, a.trade_count_24h),
                sadd32(prev.2, a.volatility_bips),
                sadd32(prev.3, 1),
                most,
                max_trades,
                highest,
                max_volume,
            )
        }
    }
}

/// Exchange-wide statistics.
pub open spec fn statistics(s: DexState) -> TradingStatistics {
    let t = stats_upto(s, s.pair_counter);
    TradingStatistics {
        total_pairs: s.pair_counter,
        total_volume_24h: t.0,
        total_trades_24h: t.1,
        most_active_pair: t.4,
        highest_volume_pair: t.6,
        average_volatility_bips: if t.3 > 0 {
            (t.2 / t.3) as u32
        } else {
            0
        },
    }
}

/// The analytics of pairs 1 to `n` that have any, in pair order.
pub open spec fn analytics_upto(s: DexState, n: u64) -> Seq<PairAnalytics>
    decreases n,
{
    if n == 0 {
        Seq::empty()
    } else if s.analytics.contains_key(n) {
        analytics_upto(s, (n - 1) as u64).push(s.analytics[n])
    } else {
        analytics_upto(s, (n - 1) as u64)
    }
}

impl PropertyDex {
    /// The pool `pair_id`, if there is one.
    pub fn get_pool(&self, pair_id: u64) -> (r: Option<LiquidityPool>)
        requires
            self.wf(),
        ensures
            r == if self@.pools.contains_key(pair_id) {
                Some(self@.pools[pair_id])
            } else {
                None::<LiquidityPool>
            },
    {
        match self.pools.get(&pair_id) {
            Some(p) => Some(*p),
            None => None,
        }
    }

    /// The analytics of `pair_id`, if there are any.
    pub fn get_pair_analytics(&self, pair_id: u64) -> (r: Option<PairAnalytics>)
        requires
            self.wf(),
        ensures
            r == if self@.analytics.contains_key(pair_id) {
                Some(self@.analytics[pair_id])
            } else {
                None::<PairAnalytics>
            },
    {
        match self.analytics.get(&pair_id) {
            Some(a) => Some(*a),
            None => None,
        }
    }

    /// What `account` holds across the exchange.
    pub fn get_portfolio_snapshot(&self, account: AccountId) -> (r: PortfolioSnapshot)
        requires
            self.wf(),
        ensures
            r == portfolio(self@, account),
    {
        let mut liquidity_positions: u64 = 0;
        let mut pending_rewards: u128 = 0;
        let mut estimated_inventory_value: u128 = 0;
        let mut pair_id: u64 = 0;
        while pair_id < self.pair_counter
            invariant
                self.wf(),
                pair_id <= self@.pair_counter,
                (liquidity_positions, pending_rewards, estimated_inventory_value) == lp_summary(
                    self@,
                    account,
                    pair_id,
                ),
            decreases self@.pair_counter - pair_id,
        {
            pair_id = pair_id + 1;
            match self.pools.get(&pair_id) {
                Some(pool) => {
                    let position = self.position(pair_id, account);
                    if position.lp_shares > 0 {
                        liquidity_positions = liquidity_positions.saturating_add(1);
                        pending_rewards = pending_rewards.saturating_add(position.pending_rewards);
                        if pool.total_lp_shares > 0 {
                            estimated_inventory_value = estimated_inventory_value.saturating_add(
                                sat_mul(position.lp_shares, pool.reserve_quote) / pool.total_lp_shares,
                            );
                        }
                    }
                },
                None => {},
            }
        }
        let mut open_orders: u64 = 0;
        let mut order_id: u64 = 0;
        while order_id < self.order_counter
            invariant
                self.wf(),
                order_id <= self@.order_counter,
                open_orders == open_order_count(self@, account, order_id),
            decreases self@.order_counter - order_id,
        {
            order_id = order_id + 1;
            match self.orders.get(&order_id) {
                Some(o) => {
                    if o.trader == account && (o.status == crate::dex::OrderStatus::Open || o.status
                        == crate::dex::OrderStatus::PartiallyFilled || o.status
                        == crate::dex::OrderStatus::Triggered) {
                        open_orders = open_orders.saturating_add(1);
                    }
                },
                None => {},
            }
        }
        let mut cross_chain_positions: u64 = 0;
        let mut trade_id: u64 = 0;
        while trade_id < self.cross_chain_trade_counter
            invariant
                self.wf(),
                trade_id <= self@.cross_chain_trade_counter,
                cross_chain_positions == open_trade_count(self@, account, trade_id),
            decreases self@.cross_chain_trade_counter - trade_id,
        {
            trade_id = trade_id + 1;
            match self.cross_chain_trades.get(&trade_id) {
                Some(t) => {
                    if t.trader == account && t.status != CrossChainTradeStatus::Settled && t.status
                        != CrossChainTradeStatus::Cancelled {
                        cross_chain_positions = cross_chain_positions.saturating_add(1);
                    }
                },
                None => {},
            }
        }
        PortfolioSnapshot {
            owner: account,
            liquidity_positions,
            open_orders,
            pending_rewards,
            governance_balance: lookup_or(&self.governance_balances, &account, 0u128),
            estimated_inventory_value,
            cross_chain_positions,
        }
    }

    /// The price impact, in bips, and the output that a trade of `amount_in` on `side`
    /// would have, without trading.
    pub fn calculate_price_impact(&self, pair_id: u64, side: OrderSide, amount_in: u128) -> (r: Result<
        (u32, u128),
        DexError,
    >)
        requires
            self.wf(),
        ensures
            amount_in == 0 ==> r == Err::<(u32, u128), DexError>(DexError::InvalidOrder),
            amount_in != 0 && !self@.pools.contains_key(pair_id) ==> r == Err::<(u32, u128), DexError>(
                DexError::PoolNotFound,
            ),
            amount_in != 0 && self@.pools.contains_key(pair_id) ==> {
                let p = self@.pools[pair_id];
                let (rin, rout) = reserves_for(p, side);
                if rin == 0 || rout == 0 {
                    r == Err::<(u32, u128), DexError>(DexError::InsufficientLiquidity)
                } else {
                    r == Ok::<(u32, u128), DexError>(price_impact(p, side, amount_in))
                }
            },
    {
        if amount_in == 0 {
            return Err(DexError::InvalidOrder);
        }
        let pool = match self.pools.get(&pair_id) {
            Some(p) => *p,
            None => return Err(DexError::PoolNotFound),
        };
        let fee_adjusted_in = sat_mul(amount_in, BIPS_DENOMINATOR.saturating_sub(pool.fee_bips as u128))
            / BIPS_DENOMINATOR;
        let (reserve_in, reserve_out) = match side {
            OrderSide::Sell => (pool.reserve_base, pool.reserve_quote),
            OrderSide::Buy => (pool.reserve_quote, pool.reserve_base),
        };
        if reserve_in == 0 || reserve_out == 0 {
            return Err(DexError::InsufficientLiquidity);
        }
        let amount_out = div_or_zero(
            sat_mul(fee_adjusted_in, reserve_out),
            reserve_in.saturating_add(fee_adjusted_in),
        );
        let price_before = sat_mul(reserve_out, BIPS_DENOMINATOR) / reserve_in;
        let reserve_in_after = reserve_in.saturating_add(amount_in);
        let reserve_out_after = reserve_out.saturating_sub(amount_out);
        let price_after = if reserve_in_after > 0 {
            sat_mul(reserve_out_after, BIPS_DENOMINATOR) / reserve_in_after
        } else {
            0
        };
        let price_impact_bips: u32 = if price_before > 0 {
            (sat_mul(abs_diff(price_before, price_after), BIPS_DENOMINATOR) / price_before) as u32
        } else {
            0
        };
        Ok((price_impact_bips, amount_out))
    }

    /// Exchange-wide 24-hour statistics over pairs 1 to the pair counter.
    pub fn get_trading_statistics(&self) -> (r: TradingStatistics)
        requires
            self.wf(),
        ensures
            r == statistics(self@),
    {
        let mut total_volume_24h: u128 = 0;
        let mut total_trades_24h: u64 = 0;
        let mut most_active_pair: Option<u64> = None;
        let mut highest_volume_pair: Option<u64> = None;
        let mut max_trades: u64 = 0;
        let mut max_volume: u128 = 0;
        let mut total_volatility: u32 = 0;
        let mut pairs_with_volatility: u32 = 0;
        let mut pair_id: u64 = 0;
        while pair_id < self.pair_counter
            invariant
                self.wf(),
                pair_id <= self@.pair_counter,
                (
                    total_volume_24h,
                    total_trades_24h,
                    total_volatility,
                    pairs_with_volatility,
                    most_active_pair,
                    max_trades,
                    highest_volume_pair,
                    max_volume,
                ) == stats_upto(self@, pair_id),
            decreases self@.pair_counter - pair_id,
        {
            pair_id = pair_id + 1;
            match self.analytics.get(&pair_id) {
                Some(a) => {
                    total_volume_24h = total_volume_24h.saturating_add(a.volume_24h);
                    total_trades_24h = total_trades_24h.saturating_add(a.trade_count_24h);
                    total_volatility = total_volatility.saturating_add(a.volatility_bips);
                    pairs_with_volatility = pairs_with_volatility.saturating_add(1);
                    if a.trade_count_24h > max_trades {
                        max_trades = a.trade_count_24h;
                        most_active_pair = Some(pair_id);
                    }
                    if a.volume_24h > max_volume {
                        max_volume = a.volume_24h;
                        highest_volume_pair = Some(pair_id);
                    }
                },
                None => {},
            }
        }
        let average_volatility_bips = if pairs_with_volatility > 0 {
            total_volatility / pairs_with_volatility
        } else {
            0
        };
        TradingStatistics {
            total_pairs: self.pair_counter,
            total_volume_24h,
            total_trades_24h,
            most_active_pair,
            highest_volume_pair,
            average_volatility_bips,
        }
    }

    /// The price summary of `pair_id`, if it has analytics.
    pub fn get_price_history(&self, pair_id: u64) -> (r: Option<PriceHistory>)
        requires
            self.wf(),
        ensures
            r == if self@.analytics.contains_key(pair_id) {
                let a = self@.analytics[pair_id];
                Some(
                    PriceHistory {
                        pair_id,
                        current_price: a.last_price,
                        high_24h: a.high_24h,
                        low_24h: a.low_24h,
                        twap_price: a.twap_price,
                        reference_price: a.reference_price,
                        volatility_bips: a.volatility_bips,
                    },
                )
            } else {
                None::<PriceHistory>
            },
    {
        let a = match self.analytics.get(&pair_id) {
            Some(a) => *a,
            None => return None,
        };
        Some(
            PriceHistory {
                pair_id,
                current_price: a.last_price,
                high_24h: a.high_24h,
                low_24h: a.low_24h,
                twap_price: a.twap_price,
                reference_price: a.reference_price,
                volatility_bips: a.volatility_bips,
            },
        )
    }

    /// The volume and liquidity summary of `pair_id`, if it has both analytics and a pool.
    pub fn get_volume_analytics(&self, pair_id: u64) -> (r: Option<VolumeAnalytics>)
        requires
            self.wf(),
        ensures
            r == if self@.analytics.contains_key(pair_id) && self@.pools.contains_key(pair_id) {
                let a = self@.analytics[pair_id];
                let p = self@.pools[pair_id];
                Some(
                    VolumeAnalytics {
                        pair_id,
                        volume_24h: a.volume_24h,
                        cumulative_volume: a.cumulative_volume,
                        trade_count_24h: a.trade_count_24h,
                        total_trade_count: a.trade_count,
                        liquidity_base: p.reserve_base,
                        liquidity_quote: p.reserve_quote,
                    },
                )
            } else {
                None::<VolumeAnalytics>
            },
    {
        let a = match self.analytics.get(&pair_id) {
            Some(a) => *a,
            None => return None,
        };
        let p = match self.pools.get(&pair_id) {
            Some(p) => *p,
            None => return None,
        };
        Some(
            VolumeAnalytics {
                pair_id,
                volume_24h: a.volume_24h,
                cumulative_volume: a.cumulative_volume,
                trade_count_24h: a.trade_count_24h,
                total_trade_count: a.trade_count,
                liquidity_base: p.reserve_base,
                liquidity_quote: p.reserve_quote,
            },
        )
    }

    /// The analytics of every pair that has some, in pair order.
    pub fn get_all_pair_analytics(&self) -> (r: Vec<PairAnalytics>)
        requires
            self.wf(),
        ensures
            r@ == analytics_upto(self@, self@.pair_counter),
    {
        let mut list: Vec<PairAnalytics> = Vec::new();
        let mut pair_id: u64 = 0;
        while pair_id < self.pair_counter
            invariant
                self.wf(),
                pair_id <= self@.pair_counter,
                list@ == analytics_upto(self@, pair_id),
            decreases self@.pair_counter - pair_id,
        {
            pair_id = pair_id + 1;
            match self.analytics.get(&pair_id) {
                Some(a) => list.push(*a),
                None => {},
            }
        }
        list
    }
}

} // verus!
