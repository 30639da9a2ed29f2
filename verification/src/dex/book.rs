//! The order book as a depth chart: live orders aggregated into price levels, best
//! first, with running depth, and a snapshot of both sides with spread and mid price.
use vstd::prelude::*;

use crate::common::{get_or, lookup_or};
use crate::dex::{analytics_of, DexError, DexState, OrderSide, OrderStatus, PropertyDex, TradingOrder};
use crate::math::sadd;

verus! {

/// The orders resting at one price on one side of the book.
#[derive(Clone, Copy, Debug, PartialEq, Eq, Structural)]
pub struct OrderBookLevel {
    pub price: u128,
    pub total_amount: u128,
    pub order_count: u32,
    /// Depth from the best level down to this one.
    pub cumulative_amount: u128,
    pub side: OrderSide,
}

/// Both sides of a pair's book, best levels first, with the spread and mid price.
pub struct OrderBookSnapshot {
    pub pair_id: u64,
    pub bids: Vec<OrderBookLevel>,
    pub asks: Vec<OrderBookLevel>,
    pub best_bid: u128,
    pub best_ask: u128,
    pub spread: u128,
    pub mid_price: u128,
    pub total_bid_depth: u128,
    pub total_ask_depth: u128,
    pub last_price: u128,
    pub last_updated: u64,
}

/// The entries a pair's book holds.
pub open spec fn book_len(s: DexState, pair_id: u64) -> u64 {
    get_or(s.order_book_count, pair_id, 0u64)
}

/// Whether book entry `idx` of the pair is a live order on `side` with a price and
/// something left to fill.
pub open spec fn shown(s: DexState, pair_id: u64, side: OrderSide, idx: u64) -> bool {
    s.order_book.contains_key((pair_id, idx)) && s.orders.contains_key(s.order_book[(pair_id, idx)]) && {
        let o = s.orders[s.order_book[(pair_id, idx)]];
        &&& o.side == side
        &&& (o.status == OrderStatus::Open || o.status == OrderStatus::PartiallyFilled || o.status
            == OrderStatus::Triggered)
        &&& o.remaining_amount > 0
        &&& o.price > 0
    }
}

/// The order at book entry `idx` of the pair.
pub open spec fn entry(s: DexState, pair_id: u64, idx: u64) -> TradingOrder {
    s.orders[s.order_book[(pair_id, idx)]]
}

/// What the shown orders among the first `n` entries offer at `price`.
pub open spec fn depth_at(s: DexState, pair_id: u64, side: OrderSide, price: u128, n: nat) -> int
    decreases n,
{
    if n == 0 {
        0
    } else {
        let idx = (n - 1) as u64;
        depth_at(s, pair_id, side, price, (n - 1) as nat) + if shown(s, pair_id, side, idx) && entry(
            s,
            pair_id,
            idx,
        ).price == price {
            entry(s, pair_id, idx).remaining_amount as int
        } else {
            0
        }
    }
}

/// How many shown orders among the first `n` entries rest at `price`.
pub open spec fn orders_at(s: DexState, pair_id: u64, side: OrderSide, price: u128, n: nat) -> int
    decreases n,
{
    if n == 0 {
        0
    } else {
        let idx = (n - 1) as u64;
        orders_at(s, pair_id, side, price, (n - 1) as nat) + if shown(s, pair_id, side, idx) && entry(
            s,
            pair_id,
            idx,
        ).price == price {
            1int
        } else {
            0
        }
    }
}

/// Whether price `a` comes before price `b` on `side`: higher bids, lower asks first.
pub open spec fn ahead(side: OrderSide, a: u128, b: u128) -> bool {
    match side {
        OrderSide::Buy => a > b,
        OrderSide::Sell => a < b,
    }
}

/// `x` capped at the largest `u128`.
pub open spec fn cap128(x: int) -> u128 {
    if x > u128::MAX {
        u128::MAX
    } else {
        x as u128
    }
}

/// `x` capped at the largest `u32`.
pub open spec fn cap32(x: int) -> u32 {
    if x > u32::MAX {
        u32::MAX
    } else {
        x as u32
    }
}

/// Whether `l` is the level of `price` after the first `n` entries (its running depth
/// aside).
pub open spec fn level_of(s: DexState, pair_id: u64, side: OrderSide, n: nat, l: OrderBookLevel) -> bool {
    &&& orders_at(s, pair_id, side, l.price, n) > 0
    &&& l.total_amount == cap128(depth_at(s, pair_id, side, l.price, n))
    &&& l.order_count == cap32(orders_at(s, pair_id, side, l.price, n))
    &&& l.side == side
}

/// Whether `levels` lists, best first, a level for each price that the first `n`
/// entries offer, and nothing else.
pub open spec fn aggregated(s: DexState, pair_id: u64, side: OrderSide, n: nat, levels: Seq<OrderBookLevel>) -> bool {
    &&& forall|i: int, j: int| 0 <= i < j < levels.len() ==> ahead(side, #[trigger] levels[i].price, #[trigger] levels[j].price)
    &&& forall|i: int| 0 <= i < levels.len() ==> level_of(s, pair_id, side, n, #[trigger] levels[i])
    &&& forall|p: u128| #[trigger] orders_at(s, pair_id, side, p, n) > 0 ==> exists|i: int|
        0 <= i < levels.len() && #[trigger] levels[i].price == p
}

/// The total of the first `k` levels' amounts.
pub open spec fn depth_upto(levels: Seq<OrderBookLevel>, k: int) -> int
    decreases k,
{
    if k <= 0 {
        0
    } else {
        depth_upto(levels, k - 1) + levels[k - 1].total_amount
    }
}

/// The levels a depth chart of `side` shows when asked for `max_levels` (0 for all):
/// the best levels of the whole book, in order, each with the depth down to it.
pub open spec fn depth_chart(s: DexState, pair_id: u64, side: OrderSide, max_levels: u32, r: Seq<OrderBookLevel>) -> bool {
    let n = book_len(s, pair_id) as nat;
    &&& max_levels > 0 ==> r.len() <= max_levels
    &&& forall|i: int, j: int| 0 <= i < j < r.len() ==> ahead(side, #[trigger] r[i].price, #[trigger] r[j].price)
    &&& forall|i: int| 0 <= i < r.len() ==> level_of(s, pair_id, side, n, #[trigger] r[i])
    &&& forall|i: int| 0 <= i < r.len() ==> #[trigger] r[i].cumulative_amount == cap128(depth_upto(r, i + 1))
    &&& forall|p: u128|
        #[trigger] orders_at(s, pair_id, side, p, n) > 0 && !(exists|i: int| 0 <= i < r.len() && r[i].price == p)
            ==> max_levels > 0 && r.len() == max_levels && ahead(side, r[r.len() - 1].price, p)
}

proof fn lemma_step_counts(s: DexState, pair_id: u64, side: OrderSide, n: nat, p: u128)
    ensures
        depth_at(s, pair_id, side, p, n + 1) == depth_at(s, pair_id, side, p, n) + if shown(s, pair_id, side, n as u64)
            && entry(s, pair_id, n as u64).price == p {
            entry(s, pair_id, n as u64).remaining_amount as int
        } else {
            0
        },
        orders_at(s, pair_id, side, p, n + 1) == orders_at(s, pair_id, side, p, n) + if shown(s, pair_id, side, n as u64)
            && entry(s, pair_id, n as u64).price == p {
            1int
        } else {
            0
        },
        depth_at(s, pair_id, side, p, n) >= 0,
        orders_at(s, pair_id, side, p, n) >= 0,
        orders_at(s, pair_id, side, p, n) == 0 ==> depth_at(s, pair_id, side, p, n) == 0,
    decreases n,
{
    if n > 0 {
        lemma_step_counts(s, pair_id, side, (n - 1) as nat, p);
    }
}

proof fn lemma_depth_upto_nonneg(levels: Seq<OrderBookLevel>, k: int)
    ensures
        depth_upto(levels, k) >= 0,
    decreases k,
{
    if k > 0 {
        lemma_depth_upto_nonneg(levels, k - 1);
    }
}

proof fn lemma_depth_upto_same_totals(a: Seq<OrderBookLevel>, b: Seq<OrderBookLevel>, k: int)
    requires
        a.len() == b.len(),
        0 <= k <= a.len(),
        forall|i: int| 0 <= i < a.len() ==> (#[trigger] a[i]).total_amount == b[i].total_amount,
    ensures
        depth_upto(a, k) == depth_upto(b, k),
    decreases k,
{
    if k > 0 {
        lemma_depth_upto_same_totals(a, b, k - 1);
        assert(a[k - 1].total_amount == b[k - 1].total_amount);
    }
}

/// The best price of a side: its first level's, 0 when it is empty.
pub open spec fn best_of(levels: Seq<OrderBookLevel>) -> u128 {
    if levels.len() > 0 {
        levels[0].price
    } else {
        0
    }
}

/// The spread between the best bid and ask, 0 unless both exist and the ask is higher.
pub open spec fn spread_of(best_bid: u128, best_ask: u128) -> u128 {
    if best_bid > 0 && best_ask > best_bid {
        (best_ask - best_bid) as u128
    } else {
        0
    }
}

/// The mid price between the best bid and ask, or the one of them there is.
pub open spec fn mid_of(best_bid: u128, best_ask: u128) -> u128 {
    if best_bid > 0 && best_ask > 0 {
        sadd(best_bid, best_ask) / 2
    } else if best_bid > 0 {
        best_bid
    } else {
        best_ask
    }
}


impl PropertyDex {
    fn ahead_of(side: OrderSide, a: u128, b: u128) -> (r: bool)
        ensures
            r == ahead(side, a, b),
    {
        match side {
            OrderSide::Buy => a > b,
            OrderSide::Sell => a < b,
        }
    }

    /// The levels of the shown orders on `side`, best first, before any cut.
    fn aggregate_levels(&self, pair_id: u64, side: OrderSide) -> (r: Vec<OrderBookLevel>)
        requires
            self.wf(),
        ensures
            aggregated(self@, pair_id, side, book_len(self@, pair_id) as nat, r@),
    {
        let count = lookup_or(&self.order_book_count, &pair_id, 0u64);
        let mut levels: Vec<OrderBookLevel> = Vec::new();
        let mut idx: u64 = 0;
        while idx < count
            invariant
                self.wf(),
                count == book_len(self@, pair_id),
                idx <= count,
                aggregated(self@, pair_id, side, idx as nat, levels@),
            decreases count - idx,
        {
            let ghost s = self@;
            let ghost n = idx as nat;
            let ghost before = levels@;
            let o: Option<TradingOrder> = match self.order_book.get(&(pair_id, idx)) {
                Some(oid) => match self.orders.get(oid) {
                    Some(o) => Some(*o),
                    None => None,
                },
                None => None,
            };
            let live = match o {
                Some(o) => o.side == side && (o.status == OrderStatus::Open || o.status == OrderStatus::PartiallyFilled
                    || o.status == OrderStatus::Triggered) && o.remaining_amount > 0 && o.price > 0,
                None => false,
            };
            assert(live == shown(s, pair_id, side, idx));
            if live {
                let o = o.unwrap();
                assert(o == entry(s, pair_id, idx));
                let price = o.price;
                // look for the level of this price, and for where a new one would go
                let mut pos: usize = 0;
                let mut found = false;
                while pos < levels.len()
                    invariant_except_break
                        !found,
                    invariant
                        levels@ == before,
                        pos <= levels@.len(),
                        forall|i: int| 0 <= i < pos ==> ahead(side, #[trigger] levels@[i].price, price),
                    ensures
                        levels@ == before,
                        pos <= levels@.len(),
                        forall|i: int| 0 <= i < pos ==> ahead(side, #[trigger] levels@[i].price, price),
                        found ==> pos < levels@.len() && levels@[pos as int].price == price,
                        !found ==> pos == levels@.len() || (levels@[pos as int].price != price && !ahead(
                            side,
                            levels@[pos as int].price,
                            price,
                        )),
                    decreases levels@.len() - pos,
                {
                    if levels[pos].price == price {
                        found = true;
                        break;
                    }
                    if !Self::ahead_of(side, levels[pos].price, price) {
                        break;
                    }
                    pos = pos + 1;
                }
                proof {
                    assert forall|p: u128| true implies {
                        &&& depth_at(s, pair_id, side, p, n + 1) == depth_at(s, pair_id, side, p, n) + if p == price {
                            o.remaining_amount as int
                        } else {
                            0
                        }
                        &&& orders_at(s, pair_id, side, p, n + 1) == orders_at(s, pair_id, side, p, n) + if p == price {
                            1int
                        } else {
                            0
                        }
                    } by {
                        lemma_step_counts(s, pair_id, side, n, p);
                    }
                }
                if found {
                    let old_level = levels[pos];
                    let lvl = OrderBookLevel {
                        price,
                        total_amount: crate::math::sat_add(old_level.total_amount, o.remaining_amount),
                        order_count: old_level.order_count.saturating_add(1),
                        cumulative_amount: 0,
                        side,
                    };
                    levels.set(pos, lvl);
                    proof {
                        assert forall|i: int, j: int| 0 <= i < j < levels@.len() implies ahead(
                            side,
                            #[trigger] levels@[i].price,
                            #[trigger] levels@[j].price,
                        ) by {
                            assert(levels@[i].price == before[i].price);
                            assert(levels@[j].price == before[j].price);
                        }
                        lemma_step_counts(s, pair_id, side, n, price);
                        assert(level_of(s, pair_id, side, n + 1, lvl));
                        assert forall|i: int| 0 <= i < levels@.len() implies level_of(
                            s,
                            pair_id,
                            side,
                            n + 1,
                            #[trigger] levels@[i],
                        ) by {
                            if i != pos {
                                assert(level_of(s, pair_id, side, n, before[i]));
                                lemma_step_counts(s, pair_id, side, n, before[i].price);
                            }
                        }
                        assert forall|p: u128| #[trigger] orders_at(s, pair_id, side, p, n + 1) > 0 implies exists|i: int|
                            0 <= i < levels@.len() && #[trigger] levels@[i].price == p by {
                            lemma_step_counts(s, pair_id, side, n, p);
                            if p == price {
                                assert(levels@[pos as int].price == p);
                            } else {
                                let i = choose|i: int| 0 <= i < before.len() && #[trigger] before[i].price == p;
                                assert(levels@[i].price == p);
                            }
                        }
                    }
                } else {
                    proof {
                        lemma_step_counts(s, pair_id, side, n, price);
                        if orders_at(s, pair_id, side, price, n) > 0 {
                            let i = choose|i: int| 0 <= i < before.len() && #[trigger] before[i].price == price;
                            if i < pos {
                                assert(ahead(side, before[i].price, price));
                            } else {
                                assert(pos < before.len());
                                assert(!ahead(side, before[pos as int].price, price));
                                if i > pos {
                                    assert(ahead(side, before[pos as int].price, before[i].price));
                                }
                            }
                        }
                        assert(orders_at(s, pair_id, side, price, n) == 0);
                    }
                    let lvl = OrderBookLevel {
                        price,
                        total_amount: o.remaining_amount,
                        order_count: 1,
                        cumulative_amount: 0,
                        side,
                    };
                    levels.insert(pos, lvl);
                    proof {
                        let after = levels@;
                        assert(after == before.insert(pos as int, lvl));
                        assert(level_of(s, pair_id, side, n + 1, lvl));
                        assert forall|i: int| 0 <= i < after.len() implies level_of(
                            s,
                            pair_id,
                            side,
                            n + 1,
                            #[trigger] after[i],
                        ) by {
                            if i < pos {
                                assert(after[i] == before[i]);
                                assert(level_of(s, pair_id, side, n, before[i]));
                                lemma_step_counts(s, pair_id, side, n, before[i].price);
                            } else if i > pos {
                                assert(after[i] == before[i - 1]);
                                assert(level_of(s, pair_id, side, n, before[i - 1]));
                                lemma_step_counts(s, pair_id, side, n, before[i - 1].price);
                            }
                        }
                        assert forall|i: int, j: int| 0 <= i < j < after.len() implies ahead(
                            side,
                            #[trigger] after[i].price,
                            #[trigger] after[j].price,
                        ) by {
                            if j < pos {
                                assert(after[i] == before[i] && after[j] == before[j]);
                            } else if j == pos {
                                assert(after[i] == before[i]);
                            } else if i == pos {
                                assert(after[j] == before[j - 1]);
                                assert(pos < before.len());
                                assert(!ahead(side, before[pos as int].price, price));
                                assert(before[pos as int].price != price);
                                if j - 1 > pos {
                                    assert(ahead(side, before[pos as int].price, before[j - 1].price));
                                }
                            } else if i < pos {
                                assert(after[i] == before[i] && after[j] == before[j - 1]);
                            } else {
                                assert(after[i] == before[i - 1] && after[j] == before[j - 1]);
                            }
                        }
                        assert forall|p: u128| #[trigger] orders_at(s, pair_id, side, p, n + 1) > 0 implies exists|i: int|
                            0 <= i < after.len() && #[trigger] after[i].price == p by {
                            lemma_step_counts(s, pair_id, side, n, p);
                            if p == price {
                                assert(after[pos as int].price == p);
                            } else {
                                let i = choose|i: int| 0 <= i < before.len() && #[trigger] before[i].price == p;
                                if i < pos {
                                    assert(after[i].price == p);
                                } else {
                                    assert(after[i + 1].price == p);
                                }
                            }
                        }
                    }
                }
            } else {
                proof {
                    assert forall|i: int| 0 <= i < levels@.len() implies level_of(
                        s,
                        pair_id,
                        side,
                        n + 1,
                        #[trigger] levels@[i],
                    ) by {
                        lemma_step_counts(s, pair_id, side, n, levels@[i].price);
                    }
                    assert forall|p: u128| #[trigger] orders_at(s, pair_id, side, p, n + 1) > 0 implies exists|i: int|
                        0 <= i < levels@.len() && #[trigger] levels@[i].price == p by {
                        lemma_step_counts(s, pair_id, side, n, p);
                    }
                }
            }
            assert(aggregated(s, pair_id, side, n + 1, levels@));
            idx = idx + 1;
        }
        levels
    }
    fn collect_order_book_levels(&self, pair_id: u64, side: OrderSide, max_levels: u32) -> (r: Vec<OrderBookLevel>)
        requires
            self.wf(),
        ensures
            depth_chart(self@, pair_id, side, max_levels, r@),
    {
        let ghost s = self@;
        let ghost n = book_len(s, pair_id) as nat;
        let mut levels = self.aggregate_levels(pair_id, side);
        let ghost full = levels@;
        if max_levels > 0 && (max_levels as usize) < levels.len() {
            levels.truncate(max_levels as usize);
        }
        let ghost base = levels@;
        assert(base.len() <= full.len());
        assert(forall|i: int| 0 <= i < base.len() ==> base[i] == full[i]);
        let mut cumulative: u128 = 0;
        let mut i: usize = 0;
        while i < levels.len()
            invariant
                levels@.len() == base.len(),
                i <= levels@.len(),
                forall|k: int|
                    0 <= k < levels@.len() ==> (#[trigger] levels@[k]).price == base[k].price && levels@[k].total_amount
                        == base[k].total_amount && levels@[k].order_count == base[k].order_count
                        && levels@[k].side == base[k].side,
                forall|k: int| 0 <= k < i ==> (#[trigger] levels@[k]).cumulative_amount == cap128(depth_upto(base, k + 1)),
                cumulative == cap128(depth_upto(base, i as int)),
            decreases levels@.len() - i,
        {
            let mut lvl = levels[i];
            assert(depth_upto(base, i + 1) == depth_upto(base, i as int) + base[i as int].total_amount);
            assert(depth_upto(base, i as int) >= 0) by {
                lemma_depth_upto_nonneg(base, i as int);
            }
            cumulative = crate::math::sat_add(cumulative, lvl.total_amount);
            lvl.cumulative_amount = cumulative;
            levels.set(i, lvl);
            i = i + 1;
        }
        proof {
            let r = levels@;
            assert forall|k: int| 0 <= k <= r.len() implies depth_upto(r, k) == depth_upto(base, k) by {
                lemma_depth_upto_same_totals(r, base, k);
            }
            assert forall|a: int, b: int| 0 <= a < b < r.len() implies ahead(side, #[trigger] r[a].price, #[trigger] r[b].price) by {
                assert(r[a].price == full[a].price && r[b].price == full[b].price);
            }
            assert forall|k: int| 0 <= k < r.len() implies level_of(s, pair_id, side, n, #[trigger] r[k]) by {
                assert(level_of(s, pair_id, side, n, full[k]));
            }
            assert forall|k: int| 0 <= k < r.len() implies #[trigger] r[k].cumulative_amount == cap128(depth_upto(r, k + 1)) by {
                assert(depth_upto(r, k + 1) == depth_upto(base, k + 1));
            }
            assert forall|p: u128|
                #[trigger] orders_at(s, pair_id, side, p, n) > 0 && !(exists|k: int| 0 <= k < r.len() && r[k].price == p)
                implies max_levels > 0 && r.len() == max_levels && ahead(side, r[r.len() - 1].price, p) by {
                let j = choose|j: int| 0 <= j < full.len() && #[trigger] full[j].price == p;
                if j < r.len() {
                    assert(r[j].price == p);
                }
                assert(j >= r.len());
                assert(r.len() < full.len());
                assert(r[r.len() - 1].price == full[r.len() - 1].price);
            }
        }
        levels
    }

    /// The levels of one side of the book of pair `pair_id`, best first, cut to
    /// `max_levels` when that is not 0 (see [`depth_chart`]).
    pub fn get_order_book_levels(&self, pair_id: u64, side: OrderSide, max_levels: u32) -> (r: Result<
        Vec<OrderBookLevel>,
        DexError,
    >)
        requires
            self.wf(),
        ensures
            !self@.pools.contains_key(pair_id) ==> r == Err::<Vec<OrderBookLevel>, DexError>(DexError::PoolNotFound),
            self@.pools.contains_key(pair_id) ==> r is Ok && depth_chart(self@, pair_id, side, max_levels, r->Ok_0@),
    {
        if !self.pools.contains(&pair_id) {
            return Err(DexError::PoolNotFound);
        }
        Ok(self.collect_order_book_levels(pair_id, side, max_levels))
    }

    /// Both sides of the book of pair `pair_id` (see [`depth_chart`]), with the best bid
    /// and ask (0 for an empty side), the spread when the ask is above the bid, the mid
    /// price (or the one side there is), each side's depth and the pair's last trade.
    pub fn get_order_book_snapshot(&self, pair_id: u64, max_levels: u32) -> (r: Result<OrderBookSnapshot, DexError>)
        requires
            self.wf(),
        ensures
            !self@.pools.contains_key(pair_id) ==> r is Err && r->Err_0 == DexError::PoolNotFound,
            self@.pools.contains_key(pair_id) ==> r is Ok && {
                let snap = r->Ok_0;
                let bids = snap.bids@;
                let asks = snap.asks@;
                let a = analytics_of(self@, pair_id);
                &&& snap.pair_id == pair_id
                &&& depth_chart(self@, pair_id, OrderSide::Buy, max_levels, bids)
                &&& depth_chart(self@, pair_id, OrderSide::Sell, max_levels, asks)
                &&& snap.best_bid == best_of(bids)
                &&& snap.best_ask == best_of(asks)
                &&& snap.spread == spread_of(best_of(bids), best_of(asks))
                &&& snap.mid_price == mid_of(best_of(bids), best_of(asks))
                &&& snap.total_bid_depth == cap128(depth_upto(bids, bids.len() as int))
                &&& snap.total_ask_depth == cap128(depth_upto(asks, asks.len() as int))
                &&& snap.last_price == a.last_price
                &&& snap.last_updated == a.last_updated
            },
    {
        if !self.pools.contains(&pair_id) {
            return Err(DexError::PoolNotFound);
        }
        let bids = self.collect_order_book_levels(pair_id, OrderSide::Buy, max_levels);
        let asks = self.collect_order_book_levels(pair_id, OrderSide::Sell, max_levels);
        let best_bid = if bids.len() > 0 {
            bids[0].price
        } else {
            0
        };
        let best_ask = if asks.len() > 0 {
            asks[0].price
        } else {
            0
        };
        let spread = if best_bid > 0 && best_ask > best_bid {
            best_ask - best_bid
        } else {
            0
        };
        let mid_price = if best_bid > 0 && best_ask > 0 {
            crate::math::sat_add(best_bid, best_ask) / 2
        } else if best_bid > 0 {
            best_bid
        } else {
            best_ask
        };
        let total_bid_depth = Self::total_depth(&bids);
        let total_ask_depth = Self::total_depth(&asks);
        let a = self.analytics_for(pair_id);
        Ok(OrderBookSnapshot {
            pair_id,
            bids,
            asks,
            best_bid,
            best_ask,
            spread,
            mid_price,
            total_bid_depth,
            total_ask_depth,
            last_price: a.last_price,
            last_updated: a.last_updated,
        })
    }

    fn total_depth(levels: &Vec<OrderBookLevel>) -> (r: u128)
        ensures
            r == cap128(depth_upto(levels@, levels@.len() as int)),
    {
        let mut total: u128 = 0;
        let mut i: usize = 0;
        while i < levels.len()
            invariant
                i <= levels@.len(),
                total == cap128(depth_upto(levels@, i as int)),
            decreases levels@.len() - i,
        {
            proof {
                lemma_depth_upto_nonneg(levels@, i as int);
            }
            total = crate::math::sat_add(total, levels[i].total_amount);
            i = i + 1;
        }
        total
    }
}

} // verus!
