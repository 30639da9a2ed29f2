//! Placing, matching and cancelling orders on the exchange's book.
use vstd::prelude::*;

use crate::common::{get_or, lookup_or, sadd64, AccountId};
use crate::dex::{
    analytics_of, refreshed, DexError, DexState, OrderSide, OrderStatus, OrderType, PropertyDex,
    TimeInForce, TradingOrder,
};
use crate::math::{
    sat_mul, smul, spec_volatility_bips, spec_weighted_average, ssub, volatility_bips,
    weighted_average, BIPS_DENOMINATOR,
};

verus! {

/// The order `caller` places, under the next order id.
pub open spec fn new_order(
    s: DexState,
    caller: AccountId,
    timestamp: u64,
    pair_id: u64,
    side: OrderSide,
    order_type: OrderType,
    time_in_force: TimeInForce,
    price: u128,
    amount: u128,
    trigger_price: Option<u128>,
    twap_interval: Option<u64>,
    reduce_only: bool,
) -> TradingOrder {
    TradingOrder {
        order_id: (s.order_counter + 1) as u64,
        pair_id,
        trader: caller,
        side,
        order_type,
        time_in_force,
        price,
        amount,
        remaining_amount: amount,
        trigger_price,
        twap_interval,
        reduce_only,
        status: OrderStatus::Open,
        created_at: timestamp,
        updated_at: timestamp,
    }
}

/// The state after order `o` is stored and appended to its pair's book.
pub open spec fn booked(s: DexState, o: TradingOrder) -> DexState {
    let count = get_or(s.order_book_count, o.pair_id, 0u64);
    refreshed(
        DexState {
            order_counter: o.order_id,
            orders: s.orders.insert(o.order_id, o),
            order_book: s.order_book.insert((o.pair_id, count), o.order_id),
            order_book_count: s.order_book_count.insert(o.pair_id, (count + 1) as u64),
            ..s
        },
        o.pair_id,
    )
}

/// Why an order would be refused before it reaches the book, if it would.
pub open spec fn place_order_error(
    s: DexState,
    pair_id: u64,
    order_type: OrderType,
    price: u128,
    amount: u128,
) -> Option<DexError> {
    if s.locked {
        Some(DexError::ReentrantCall)
    } else if amount == 0 {
        Some(DexError::InvalidOrder)
    } else if !s.pools.contains_key(pair_id) {
        Some(DexError::PoolNotFound)
    } else if (order_type == OrderType::Limit || order_type == OrderType::StopLoss || order_type
        == OrderType::TakeProfit) && price == 0 {
        Some(DexError::InvalidOrder)
    } else {
        None
    }
}

/// Whether an order is sent for execution as soon as it is booked.
pub open spec fn executes_at_once(order_type: OrderType, time_in_force: TimeInForce) -> bool {
    time_in_force == TimeInForce::ImmediateOrCancel || time_in_force == TimeInForce::FillOrKill
        || order_type == OrderType::Market
}

/// Status of an order after a fill leaves `remaining` of it.
pub open spec fn fill_status(remaining: u128) -> OrderStatus {
    if remaining == 0 {
        OrderStatus::Filled
    } else {
        OrderStatus::PartiallyFilled
    }
}

/// Why a maker/taker match would be refused, if it would.
pub open spec fn match_error(s: DexState, maker_id: u64, taker_id: u64, amount: u128) -> Option<
    DexError,
> {
    if s.locked {
        Some(DexError::ReentrantCall)
    } else if !s.orders.contains_key(maker_id) || !s.orders.contains_key(taker_id) {
        Some(DexError::OrderNotFound)
    } else {
        let maker = s.orders[maker_id];
        let taker = s.orders[taker_id];
        if maker.pair_id != taker.pair_id || maker.side == taker.side {
            Some(DexError::InvalidOrder)
        } else if match_fill(maker, taker, amount) == 0 {
            Some(DexError::InvalidOrder)
        } else {
            None
        }
    }
}

/// The amount a match fills: the request, capped by what is left of both orders.
pub open spec fn match_fill(maker: TradingOrder, taker: TradingOrder, amount: u128) -> u128 {
    let left = if maker.remaining_amount <= taker.remaining_amount {
        maker.remaining_amount
    } else {
        taker.remaining_amount
    };
    if amount <= left {
        amount
    } else {
        left
    }
}

/// The price a match executes at: the maker's, or the taker's when the maker set none.
pub open spec fn match_price(maker: TradingOrder, taker: TradingOrder) -> u128 {
    if maker.price > 0 {
        maker.price
    } else {
        taker.price
    }
}

/// The quote value of a match of `fill` at `price`.
pub open spec fn match_notional(fill: u128, price: u128) -> u128 {
    smul(fill, price) / BIPS_DENOMINATOR
}

/// `o` after a fill of `fill` at `timestamp`.
pub open spec fn filled(o: TradingOrder, fill: u128, timestamp: u64) -> TradingOrder {
    TradingOrder {
        remaining_amount: ssub(o.remaining_amount, fill),
        status: fill_status(ssub(o.remaining_amount, fill)),
        updated_at: timestamp,
        ..o
    }
}

/// The state after a valid match of `maker_id` against `taker_id`.
pub open spec fn matched(
    s: DexState,
    timestamp: u64,
    maker_id: u64,
    taker_id: u64,
    amount: u128,
) -> DexState {
    let maker = s.orders[maker_id];
    let taker = s.orders[taker_id];
    let fill = match_fill(maker, taker, amount);
    let price = match_price(maker, taker);
    let a = analytics_of(s, maker.pair_id);
    let a2 = crate::dex::PairAnalytics {
        last_price: price,
        reference_price: spec_weighted_average(price, a.twap_price, 7, 3),
        twap_price: spec_weighted_average(price, a.twap_price, 1, 1),
        cumulative_volume: crate::math::sadd(a.cumulative_volume, match_notional(fill, price)),
        trade_count: sadd64(a.trade_count, 1),
        volatility_bips: spec_volatility_bips(a.last_price, price),
        last_updated: timestamp,
        ..a
    };
    refreshed(
        DexState {
            orders: s.orders.insert(maker_id, filled(maker, fill, timestamp)).insert(
                taker_id,
                filled(taker, fill, timestamp),
            ),
            analytics: s.analytics.insert(maker.pair_id, a2),
            ..s
        },
        maker.pair_id,
    )
}

impl PropertyDex {
    /// `caller` places an order on pool `pair_id`'s book. An immediate-or-cancel,
    /// fill-or-kill or market order is then sent to [`PropertyDex::execute_order`]
    /// while the placement still holds the reentrancy guard, so that call, and with
    /// it the placement, is refused with `ReentrantCall`; the order stays booked.
    pub fn place_order(
        &mut self,
        caller: AccountId,
        timestamp: u64,
        pair_id: u64,
        side: OrderSide,
        order_type: OrderType,
        time_in_force: TimeInForce,
        price: u128,
        amount: u128,
        trigger_price: Option<u128>,
        twap_interval: Option<u64>,
        reduce_only: bool,
    ) -> (r: Result<u64, DexError>)
        requires
            old(self).wf(),
            place_order_error(old(self)@, pair_id, order_type, price, amount) is None ==> old(self)@.order_counter < u64::MAX && get_or(old(self)@.order_book_count, pair_id, 0u64)
                < u64::MAX,
        ensures
            final(self).wf(),
            match place_order_error(old(self)@, pair_id, order_type, price, amount) {
                Some(e) => r == Err::<u64, DexError>(e) && final(self)@ == old(self)@,
                None => {
                    let o = new_order(
                        old(self)@,
                        caller,
                        timestamp,
                        pair_id,
                        side,
                        order_type,
                        time_in_force,
                        price,
                        amount,
                        trigger_price,
                        twap_interval,
                        reduce_only,
                    );
                    &&& final(self)@ == booked(old(self)@, o)
                    &&& r == if executes_at_once(order_type, time_in_force) {
                        Err::<u64, DexError>(DexError::ReentrantCall)
                    } else {
                        Ok::<u64, DexError>(o.order_id)
                    }
                },
            },
    {
        match self.reentrancy_guard.enter() {
            Ok(()) => {},
            Err(e) => return Err(DexError::from(e)),
        }
        let ghost s0 = self@;
        let r = self.place_order_locked(
            caller,
            timestamp,
            pair_id,
            side,
            order_type,
            time_in_force,
            price,
            amount,
            trigger_price,
            twap_interval,
            reduce_only,
        );
        self.reentrancy_guard.exit();
        proof {
            if place_order_error(old(self)@, pair_id, order_type, price, amount) is None {
                let o = new_order(
                    old(self)@,
                    caller,
                    timestamp,
                    pair_id,
                    side,
                    order_type,
                    time_in_force,
                    price,
                    amount,
                    trigger_price,
                    twap_interval,
                    reduce_only,
                );
                let s1 = DexState { locked: true, ..old(self)@ };
                let count = get_or(old(self)@.order_book_count, pair_id, 0u64);
                let x0 = DexState {
                    order_counter: o.order_id,
                    orders: s1.orders.insert(o.order_id, o),
                    order_book: s1.order_book.insert((o.pair_id, count), o.order_id),
                    order_book_count: s1.order_book_count.insert(o.pair_id, (count + 1) as u64),
                    ..s1
                };
                let x1 = DexState { locked: false, ..x0 };
                crate::dex::lemma_best_quotes_from_book(
                    x0,
                    x1,
                    pair_id,
                    get_or(x0.order_book_count, pair_id, 0u64) as nat,
                );
                assert(self@ =~= booked(old(self)@, o));
            } else {
                assert(self@ =~= old(self)@);
            }
        }
        r
    }

    fn place_order_locked(
        &mut self,
        caller: AccountId,
        timestamp: u64,
        pair_id: u64,
        side: OrderSide,
        order_type: OrderType,
        time_in_force: TimeInForce,
        price: u128,
        amount: u128,
        trigger_price: Option<u128>,
        twap_interval: Option<u64>,
        reduce_only: bool,
    ) -> (r: Result<u64, DexError>)
        requires
            old(self).wf(),
            old(self)@.locked,
            place_order_error(
                DexState { locked: false, ..old(self)@ },
                pair_id,
                order_type,
                price,
                amount,
            ) is None ==> old(self)@.order_counter < u64::MAX && get_or(
                old(self)@.order_book_count,
                pair_id,
                0u64,
            ) < u64::MAX,
        ensures
            final(self).wf(),
            final(self)@.locked,
            match place_order_error(
                DexState { locked: false, ..old(self)@ },
                pair_id,
                order_type,
                price,
                amount,
            ) {
                Some(e) => r == Err::<u64, DexError>(e) && final(self)@ == old(self)@,
                None => {
                    let o = new_order(
                        old(self)@,
                        caller,
                        timestamp,
                        pair_id,
                        side,
                        order_type,
                        time_in_force,
                        price,
                        amount,
                        trigger_price,
                        twap_interval,
                        reduce_only,
                    );
                    &&& final(self)@ == booked(old(self)@, o)
                    &&& r == if executes_at_once(order_type, time_in_force) {
                        Err::<u64, DexError>(DexError::ReentrantCall)
                    } else {
                        Ok::<u64, DexError>(o.order_id)
                    }
                },
            },
    {
        if amount == 0 {
            return Err(DexError::InvalidOrder);
        }
        if !self.pools.contains(&pair_id) {
            return Err(DexError::PoolNotFound);
        }
        if (order_type == OrderType::Limit || order_type == OrderType::StopLoss || order_type
            == OrderType::TakeProfit) && price == 0 {
            return Err(DexError::InvalidOrder);
        }
        self.order_counter = self.order_counter + 1;
        let order_id = self.order_counter;
        let order = TradingOrder {
            order_id,
            pair_id,
            trader: caller,
            side,
            order_type,
            time_in_force,
            price,
            amount,
            remaining_amount: amount,
            trigger_price,
            twap_interval,
            reduce_only,
            status: OrderStatus::Open,
            created_at: timestamp,
            updated_at: timestamp,
        };
        self.orders.insert(order_id, order);
        let count = lookup_or(&self.order_book_count, &pair_id, 0u64);
        self.order_book.insert((pair_id, count), order_id);
        self.order_book_count.insert(pair_id, count + 1);
        let ghost before_refresh = self@;
        self.refresh_best_quotes(pair_id);
        proof {
            assert(before_refresh =~= DexState {
                order_counter: order.order_id,
                orders: old(self)@.orders.insert(order.order_id, order),
                order_book: old(self)@.order_book.insert((pair_id, count), order.order_id),
                order_book_count: old(self)@.order_book_count.insert(pair_id, (count + 1) as u64),
                ..old(self)@
            });
        }
        if time_in_force == TimeInForce::ImmediateOrCancel || time_in_force == TimeInForce::FillOrKill
            || order_type == OrderType::Market {
            match self.execute_order(caller, 0, timestamp, order_id, amount) {
                Ok(_) => {},
                Err(e) => return Err(e),
            }
        }
        Ok(order_id)
    }

    /// Fills a resting maker order against a taker order of the other side of the same
    /// pair, off the pool, at the maker's price; returns the quote value of the fill.
    pub fn match_orders(
        &mut self,
        timestamp: u64,
        maker_order_id: u64,
        taker_order_id: u64,
        amount: u128,
    ) -> (r: Result<u128, DexError>)
        requires
            old(self).wf(),
        ensures
            final(self).wf(),
            match match_error(old(self)@, maker_order_id, taker_order_id, amount) {
                Some(e) => r == Err::<u128, DexError>(e) && final(self)@ == old(self)@,
                None => {
                    let maker = old(self)@.orders[maker_order_id];
                    let taker = old(self)@.orders[taker_order_id];
                    &&& r == Ok::<u128, DexError>(
                        match_notional(match_fill(maker, taker, amount), match_price(maker, taker)),
                    )
                    &&& final(self)@ == matched(
                        old(self)@,
                        timestamp,
                        maker_order_id,
                        taker_order_id,
                        amount,
                    )
                },
            },
    {
        if self.reentrancy_guard.locked {
            return Err(DexError::ReentrantCall);
        }
        let mut maker = match self.orders.get(&maker_order_id) {
            Some(o) => *o,
            None => return Err(DexError::OrderNotFound),
        };
        let mut taker = match self.orders.get(&taker_order_id) {
            Some(o) => *o,
            None => return Err(DexError::OrderNotFound),
        };
        if maker.pair_id != taker.pair_id || maker.side == taker.side {
            return Err(DexError::InvalidOrder);
        }
        let left = if maker.remaining_amount <= taker.remaining_amount {
            maker.remaining_amount
        } else {
            taker.remaining_amount
        };
        let fill_amount = if amount <= left {
            amount
        } else {
            left
        };
        if fill_amount == 0 {
            return Err(DexError::InvalidOrder);
        }
        let execution_price = if maker.price > 0 {
            maker.price
        } else {
            taker.price
        };
        let notional = sat_mul(fill_amount, execution_price) / BIPS_DENOMINATOR;
        maker.remaining_amount = maker.remaining_amount.saturating_sub(fill_amount);
        taker.remaining_amount = taker.remaining_amount.saturating_sub(fill_amount);
        maker.status = if maker.remaining_amount == 0 {
            OrderStatus::Filled
        } else {
            OrderStatus::PartiallyFilled
        };
        taker.status = if taker.remaining_amount == 0 {
            OrderStatus::Filled
        } else {
            OrderStatus::PartiallyFilled
        };
        maker.updated_at = timestamp;
        taker.updated_at = timestamp;
        self.orders.insert(maker_order_id, maker);
        self.orders.insert(taker_order_id, taker);
        let mut analytics = self.analytics_for(maker.pair_id);
        let prev = analytics.last_price;
        analytics.last_price = execution_price;
        analytics.reference_price = weighted_average(execution_price, analytics.twap_price, 7, 3);
        analytics.twap_price = weighted_average(execution_price, analytics.twap_price, 1, 1);
        analytics.cumulative_volume = analytics.cumulative_volume.saturating_add(notional);
        analytics.trade_count = analytics.trade_count.saturating_add(1);
        analytics.volatility_bips = volatility_bips(prev, execution_price);
        analytics.last_updated = timestamp;
        self.analytics.insert(maker.pair_id, analytics);
        let ghost before_refresh = self@;
        self.refresh_best_quotes(maker.pair_id);
        proof {
            let s = old(self)@;
            let m = s.orders[maker_order_id];
            let t = s.orders[taker_order_id];
            let a = analytics_of(s, m.pair_id);
            assert(before_refresh =~= DexState {
                orders: s.orders.insert(maker_order_id, filled(m, fill_amount, timestamp)).insert(
                    taker_order_id,
                    filled(t, fill_amount, timestamp),
                ),
                analytics: s.analytics.insert(
                    m.pair_id,
                    crate::dex::PairAnalytics {
                        last_price: execution_price,
                        reference_price: spec_weighted_average(execution_price, a.twap_price, 7, 3),
                        twap_price: spec_weighted_average(execution_price, a.twap_price, 1, 1),
                        cumulative_volume: crate::math::sadd(
                            a.cumulative_volume,
                            match_notional(fill_amount, execution_price),
                        ),
                        trade_count: sadd64(a.trade_count, 1),
                        volatility_bips: spec_volatility_bips(a.last_price, execution_price),
                        last_updated: timestamp,
                        ..a
                    },
                ),
                ..s
            });
        }
        Ok(notional)
    }

    /// The trader, or the admin, cancels an order; it leaves the book's best quotes.
    pub fn cancel_order(&mut self, caller: AccountId, timestamp: u64, order_id: u64) -> (r: Result<
        (),
        DexError,
    >)
        requires
            old(self).wf(),
        ensures
            final(self).wf(),
            old(self)@.locked ==> r == Err::<(), DexError>(DexError::ReentrantCall) && final(self)@
                == old(self)@,
            !old(self)@.locked && !old(self)@.orders.contains_key(order_id) ==> r == Err::<
                (),
                DexError,
            >(DexError::OrderNotFound) && final(self)@ == old(self)@,
            !old(self)@.locked && old(self)@.orders.contains_key(order_id) ==> {
                let o = old(self)@.orders[order_id];
                if caller != o.trader && caller != old(self)@.admin {
                    r == Err::<(), DexError>(DexError::Unauthorized) && final(self)@ == old(self)@
                } else {
                    r == Ok::<(), DexError>(()) && final(self)@ == refreshed(
                        DexState {
                            orders: old(self)@.orders.insert(
                                order_id,
                                TradingOrder {
                                    status: OrderStatus::Cancelled,
                                    updated_at: timestamp,
                                    ..o
                                },
                            ),
                            ..old(self)@
                        },
                        o.pair_id,
                    )
                }
            },
    {
        if self.reentrancy_guard.locked {
            return Err(DexError::ReentrantCall);
        }
        let mut order = match self.orders.get(&order_id) {
            Some(o) => *o,
            None => return Err(DexError::OrderNotFound),
        };
        if caller != order.trader && caller != self.admin {
            return Err(DexError::Unauthorized);
        }
        order.status = OrderStatus::Cancelled;
        order.updated_at = timestamp;
        self.orders.insert(order_id, order);
        self.refresh_best_quotes(order.pair_id);
        Ok(())
    }

    /// The order `order_id`, if there is one.
    pub fn get_order(&self, order_id: u64) -> (r: Option<TradingOrder>)
        requires
            self.wf(),
        ensures
            r == (if self@.orders.contains_key(order_id) {
                Some(self@.orders[order_id])
            } else {
                None::<TradingOrder>
            }),
    {
        match self.orders.get(&order_id) {
            Some(o) => Some(*o),
            None => None,
        }
    }
}

} // verus!
