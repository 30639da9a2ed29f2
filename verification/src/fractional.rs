//! Fractional property ownership: share balances, fixed-price listings, a
//! constant-product pool per property token, Dutch auctions and a two-step
//! administrator rotation.
use vstd::prelude::*;

use crate::common::{
    get0, new_rotation_request, rotation_request, sadd32, sadd64, AccountId, KeyRotationRequest,
    ReentrancyError, ReentrancyGuard, Table, TableKey, KEY_ROTATION_EXPIRY_BLOCKS,
};
use crate::math::{
    div_or_zero, floor_sqrt, isqrt, is_floor_sqrt, sadd, sat_add, sat_mul, sat_sub, sdiv, smul, ssub,
};

verus! {

/// A position in a portfolio valuation request.
#[derive(Clone, Copy, Debug, PartialEq, Eq, Structural)]
pub struct PortfolioItem {
    pub token_id: u64,
    pub shares: u128,
    pub price_per_share: u128,
}

/// The value of a portfolio and the price used for each position.
#[derive(Debug)]
pub struct PortfolioAggregation {
    pub total_value: u128,
    pub positions: Vec<(u64, u128, u128)>,
}

/// An owner's holdings across properties with their total value.
pub struct FractionalDashboard {
    pub owner: AccountId,
    pub total_value: u128,
    pub positions: Vec<PortfolioItem>,
}

/// Totals of dividend and sale proceeds entries.
#[derive(Clone, Copy, Debug, PartialEq, Eq, Structural)]
pub struct TaxReport {
    pub total_dividends: u128,
    pub total_proceeds: u128,
    pub transactions: u64,
}

/// Shares a holder offers at a fixed price per share.
#[derive(Clone, Copy, Debug, PartialEq, Eq, Structural)]
pub struct ShareListing {
    pub seller: AccountId,
    pub token_id: u64,
    pub shares: u128,
    pub price_per_share: u128,
}

/// A constant-product pool of shares against native value.
#[derive(Clone, Copy, Debug, PartialEq, Eq, Structural)]
pub struct AmmPool {
    pub share_reserve: u128,
    pub value_reserve: u128,
    pub lp_supply: u128,
}

/// A descending-price sale of a block of shares.
#[derive(Clone, Copy, Debug, PartialEq, Eq, Structural)]
pub struct DutchAuction {
    pub seller: AccountId,
    pub token_id: u64,
    pub shares: u128,
    pub start_price: u128,
    pub end_price: u128,
    pub start_time: u64,
    pub duration: u64,
    pub has_bids: bool,
}

/// Why a fractional-ownership operation was refused.
#[derive(Clone, Copy, Debug, PartialEq, Eq, Structural)]
pub enum FractionalError {
    InsufficientShares,
    ListingNotFound,
    AuctionNotFound,
    AuctionAlreadyBid,
    InsufficientPayment,
    Unauthorized,
    ReentrantCall,
    ZeroAmount,
    PoolNotFound,
    PoolAlreadyExists,
    SlippageExceeded,
    InsufficientLiquidity,
    InsufficientLpShares,
    KeyRotationCooldown,
    KeyRotationExpired,
    NoPendingRotation,
    RotationUnauthorized,
    RequestExpired,
}

impl FractionalError {
    /// The error a reentrancy failure becomes.
    pub fn from(_e: ReentrancyError) -> (r: FractionalError)
        ensures
            r == FractionalError::ReentrantCall,
    {
        FractionalError::ReentrantCall
    }
}

/// The abstract state of the fractional-ownership contract.
#[verifier::ext_equal]
pub struct FractionalState {
    pub last_prices: Map<u64, u128>,
    pub balances: Map<(AccountId, u64), u128>,
    pub listings: Map<(AccountId, u64), ShareListing>,
    pub total_shares: Map<u64, u128>,
    pub amm_pools: Map<u64, AmmPool>,
    pub lp_balances: Map<(AccountId, u64), u128>,
    pub dutch_auctions: Map<u64, DutchAuction>,
    pub auction_counter: u64,
    pub locked: bool,
    pub admin: AccountId,
    pub pending_admin_rotation: Option<KeyRotationRequest>,
    pub payouts: Seq<(AccountId, u128)>,
}

/// The fractional-ownership contract.
pub struct Fractional {
    last_prices: Table<u64, u128>,
    balances: Table<(AccountId, u64), u128>,
    listings: Table<(AccountId, u64), ShareListing>,
    total_shares: Table<u64, u128>,
    amm_pools: Table<u64, AmmPool>,
    lp_balances: Table<(AccountId, u64), u128>,
    dutch_auctions: Table<u64, DutchAuction>,
    auction_counter: u64,
    /// Rejects an operation entered while another one is running.
    pub reentrancy_guard: ReentrancyGuard,
    admin: AccountId,
    pending_admin_rotation: Option<KeyRotationRequest>,
    payouts: Vec<(AccountId, u128)>,
}

impl View for Fractional {
    type V = FractionalState;

    closed spec fn view(&self) -> FractionalState {
        FractionalState {
            last_prices: self.last_prices@,
            balances: self.balances@,
            listings: self.listings@,
            total_shares: self.total_shares@,
            amm_pools: self.amm_pools@,
            lp_balances: self.lp_balances@,
            dutch_auctions: self.dutch_auctions@,
            auction_counter: self.auction_counter,
            locked: self.reentrancy_guard.locked,
            admin: self.admin,
            pending_admin_rotation: self.pending_admin_rotation,
            payouts: self.payouts@,
        }
    }
}

/// The price used for a portfolio item: its own price, else the last recorded one, else 0.
pub open spec fn item_price(s: FractionalState, it: PortfolioItem) -> u128 {
    if it.price_per_share > 0 {
        it.price_per_share
    } else {
        get0(s.last_prices, it.token_id)
    }
}

/// The saturating sum of `price * shares` over the items.
pub open spec fn portfolio_total(s: FractionalState, items: Seq<PortfolioItem>) -> u128
    decreases items.len(),
{
    if items.len() == 0 {
        0
    } else {
        sadd(
            portfolio_total(s, items.drop_last()),
            smul(item_price(s, items.last()), items.last().shares),
        )
    }
}

/// The saturating sum of the amounts of `(id, amount)` entries.
pub open spec fn amount_total(entries: Seq<(u64, u128)>) -> u128
    decreases entries.len(),
{
    if entries.len() == 0 {
        0
    } else {
        sadd(amount_total(entries.drop_last()), entries.last().1)
    }
}

/// Price of a Dutch auction at `current_block`: the start price until it
/// starts, the end price once it is over, and in between the start price less
/// the elapsed fraction of the price drop.
pub open spec fn spec_dutch_price(a: DutchAuction, current_block: u64) -> u128 {
    if current_block >= sadd64(a.start_time, a.duration) {
        a.end_price
    } else if current_block <= a.start_time {
        a.start_price
    } else {
        ssub(
            a.start_price,
            smul(ssub(a.start_price, a.end_price), (current_block - a.start_time) as u128)
                / a.duration as u128,
        )
    }
}

/// Between its start and its end, a Dutch auction's price falls linearly from the start
/// price to the end price: it is the start price less the price gap times the share of
/// the duration elapsed since the auction started (rounding the fall down), and stays
/// between the two prices.
pub proof fn lemma_dutch_price_linear(a: DutchAuction, block: u64)
    requires
        a.start_time < block,
        block < a.start_time + a.duration,
        a.start_time + a.duration <= u64::MAX,
        a.end_price <= a.start_price,
        (a.start_price - a.end_price) * (block - a.start_time) <= u128::MAX,
    ensures
        spec_dutch_price(a, block) == a.start_price - (a.start_price - a.end_price) * (block - a.start_time) / (
        a.duration as int),
        a.end_price <= spec_dutch_price(a, block) <= a.start_price,
{
    let gap = (a.start_price - a.end_price) as int;
    let e = (block - a.start_time) as int;
    let dur = a.duration as int;
    assert(gap * e <= gap * dur) by (nonlinear_arith)
        requires
            gap >= 0,
            e <= dur,
    ;
    vstd::arithmetic::div_mod::lemma_div_is_ordered(gap * e, gap * dur, dur);
    vstd::arithmetic::div_mod::lemma_div_multiples_vanish(gap, dur);
    assert(gap * dur == dur * gap) by (nonlinear_arith);
    assert(gap * e >= 0) by (nonlinear_arith)
        requires
            gap >= 0,
            e >= 0,
    ;
    vstd::arithmetic::div_mod::lemma_div_pos_is_pos(gap * e, dur);
}

/// A Dutch auction's price depends only on the blocks elapsed since it started:
/// moving both its start and the block at which it is priced by the same number of
/// blocks leaves the price unchanged.
pub proof fn lemma_dutch_price_shift(a: DutchAuction, block: u64, k: u64)
    requires
        a.start_time + a.duration + k <= u64::MAX,
        block + k <= u64::MAX,
    ensures
        spec_dutch_price(DutchAuction { start_time: (a.start_time + k) as u64, ..a }, (block + k) as u64)
            == spec_dutch_price(a, block),
{
}

/// A deposit into an existing pool never mints more LP tokens than the deposit's
/// proportional part of either reserve, and (when nothing saturates) mints the most
/// that both sides allow.
pub proof fn lemma_deposit_mints_proportionally(s: FractionalState, value_in: u128, token_id: u64, share_amount: u128)
    requires
        s.amm_pools.contains_key(token_id),
        s.amm_pools[token_id].share_reserve > 0,
        s.amm_pools[token_id].value_reserve > 0,
    ensures
        ({
            let p = s.amm_pools[token_id];
            let m = add_liquidity_minted(s, value_in, token_id, share_amount);
            &&& m * p.share_reserve <= share_amount * p.lp_supply
            &&& m * p.value_reserve <= value_in * p.lp_supply
            &&& share_amount * p.lp_supply <= u128::MAX && value_in * p.lp_supply <= u128::MAX ==> (m + 1)
                * p.share_reserve > share_amount * p.lp_supply || (m + 1) * p.value_reserve > value_in
                * p.lp_supply
        }),
{
    let p = s.amm_pools[token_id];
    crate::math::lemma_min_proportional(
        share_amount,
        p.share_reserve,
        value_in,
        p.value_reserve,
        p.lp_supply,
        add_liquidity_minted(s, value_in, token_id, share_amount),
    );
}

impl Fractional {
    /// The tables' invariants.
    pub closed spec fn wf(&self) -> bool {
        &&& self.last_prices.wf()
        &&& self.balances.wf()
        &&& self.listings.wf()
        &&& self.total_shares.wf()
        &&& self.amm_pools.wf()
        &&& self.lp_balances.wf()
        &&& self.dutch_auctions.wf()
    }

    /// A contract with no shares, listings, pools or auctions, administered by `caller`.
    pub fn new(caller: AccountId) -> (f: Fractional)
        ensures
            f.wf(),
            f@ == (FractionalState {
                last_prices: Map::empty(),
                balances: Map::empty(),
                listings: Map::empty(),
                total_shares: Map::empty(),
                amm_pools: Map::empty(),
                lp_balances: Map::empty(),
                dutch_auctions: Map::empty(),
                auction_counter: 0,
                locked: false,
                admin: caller,
                pending_admin_rotation: None,
                payouts: Seq::empty(),
            }),
    {
        let f = Fractional {
            last_prices: Table::new(),
            balances: Table::new(),
            listings: Table::new(),
            total_shares: Table::new(),
            amm_pools: Table::new(),
            lp_balances: Table::new(),
            dutch_auctions: Table::new(),
            auction_counter: 0,
            reentrancy_guard: ReentrancyGuard::new(),
            admin: caller,
            pending_admin_rotation: None,
            payouts: Vec::new(),
        };
        assert(f.payouts@ =~= Seq::<(AccountId, u128)>::empty());
        f
    }

    fn lookup0<K: TableKey>(t: &Table<K, u128>, k: &K) -> (r: u128)
        requires
            t.wf(),
        ensures
            r == get0(t@, *k),
    {
        match t.get(k) {
            Some(v) => *v,
            None => 0,
        }
    }

    /// Records `price_per_share` as the last price of `token_id`.
    pub fn set_last_price(&mut self, token_id: u64, price_per_share: u128)
        requires
            old(self).wf(),
        ensures
            final(self).wf(),
            final(self)@ == (FractionalState {
                last_prices: old(self)@.last_prices.insert(token_id, price_per_share),
                ..old(self)@
            }),
    {
        self.last_prices.insert(token_id, price_per_share);
    }

    /// The last recorded price of `token_id`.
    pub fn get_last_price(&self, token_id: u64) -> (r: Option<u128>)
        requires
            self.wf(),
        ensures
            r == (if self@.last_prices.contains_key(token_id) {
                Some(self@.last_prices[token_id])
            } else {
                None
            }),
    {
        match self.last_prices.get(&token_id) {
            Some(p) => Some(*p),
            None => None,
        }
    }

    /// Values a list of positions, each at its own price or else the last recorded one.
    pub fn aggregate_portfolio(&self, items: Vec<PortfolioItem>) -> (r: PortfolioAggregation)
        requires
            self.wf(),
        ensures
            r.total_value == portfolio_total(self@, items@),
            r.positions@.len() == items@.len(),
            forall|i: int|
                0 <= i < items@.len() ==> #[trigger] r.positions@[i] == (
                    items@[i].token_id,
                    items@[i].shares,
                    item_price(self@, items@[i]),
                ),
    {
        let mut total: u128 = 0;
        let mut positions: Vec<(u64, u128, u128)> = Vec::new();
        let n = items.len();
        let mut i: usize = 0;
        while i < n
            invariant
                self.wf(),
                n == items@.len(),
                i <= n,
                total == portfolio_total(self@, items@.subrange(0, i as int)),
                positions@.len() == i,
                forall|j: int|
                    0 <= j < i ==> #[trigger] positions@[j] == (
                        items@[j].token_id,
                        items@[j].shares,
                        item_price(self@, items@[j]),
                    ),
            decreases n - i,
        {
            let it = items[i];
            let price = if it.price_per_share > 0 {
                it.price_per_share
            } else {
                Self::lookup0(&self.last_prices, &it.token_id)
            };
            let value = sat_mul(price, it.shares);
            total = sat_add(total, value);
            positions.push((it.token_id, it.shares, price));
            proof {
                let pre = items@.subrange(0, i as int);
                let post = items@.subrange(0, i + 1);
                assert(post.drop_last() =~= pre);
                assert(post.last() == it);
            }
            i = i + 1;
        }
        assert(items@.subrange(0, n as int) =~= items@);
        PortfolioAggregation { total_value: total, positions }
    }

    fn sum_amounts(entries: &Vec<(u64, u128)>) -> (r: u128)
        ensures
            r == amount_total(entries@),
    {
        let mut total: u128 = 0;
        let n = entries.len();
        let mut i: usize = 0;
        while i < n
            invariant
                n == entries@.len(),
                i <= n,
                total == amount_total(entries@.subrange(0, i as int)),
            decreases n - i,
        {
            let amount = entries[i].1;
            total = sat_add(total, amount);
            proof {
                let pre = entries@.subrange(0, i as int);
                let post = entries@.subrange(0, i + 1);
                assert(post.drop_last() =~= pre);
            }
            i = i + 1;
        }
        assert(entries@.subrange(0, n as int) =~= entries@);
        total
    }

    /// Totals dividends and sale proceeds and counts the entries.
    pub fn summarize_tax(&self, dividends: Vec<(u64, u128)>, proceeds: Vec<(u64, u128)>) -> (r: TaxReport)
        requires
            dividends@.len() + proceeds@.len() <= usize::MAX,
        ensures
            r == (TaxReport {
                total_dividends: amount_total(dividends@),
                total_proceeds: amount_total(proceeds@),
                transactions: (dividends@.len() + proceeds@.len()) as u64,
            }),
    {
        let total_dividends = Self::sum_amounts(&dividends);
        let total_proceeds = Self::sum_amounts(&proceeds);
        TaxReport {
            total_dividends,
            total_proceeds,
            transactions: (dividends.len() + proceeds.len()) as u64,
        }
    }

    /// Credits `amount` new shares of `token_id` to `owner` (saturating).
    pub fn mint_shares(&mut self, owner: AccountId, token_id: u64, amount: u128)
        requires
            old(self).wf(),
        ensures
            final(self).wf(),
            final(self)@ == (FractionalState {
                balances: old(self)@.balances.insert(
                    (owner, token_id),
                    sadd(get0(old(self)@.balances, (owner, token_id)), amount),
                ),
                total_shares: old(self)@.total_shares.insert(
                    token_id,
                    sadd(get0(old(self)@.total_shares, token_id), amount),
                ),
                ..old(self)@
            }),
    {
        let current = Self::lookup0(&self.balances, &(owner, token_id));
        self.balances.insert((owner, token_id), current.saturating_add(amount));
        let total = Self::lookup0(&self.total_shares, &token_id);
        self.total_shares.insert(token_id, total.saturating_add(amount));
    }

    /// The shares of `token_id` held by `owner`.
    pub fn balance_of(&self, owner: AccountId, token_id: u64) -> (r: u128)
        requires
            self.wf(),
        ensures
            r == get0(self@.balances, (owner, token_id)),
    {
        Self::lookup0(&self.balances, &(owner, token_id))
    }

    /// Returns the owner's balance of `token_id`, or `InsufficientShares` if it is 0.
    pub fn consolidate_shares(&mut self, owner: AccountId, token_id: u64) -> (r: Result<u128, FractionalError>)
        requires
            old(self).wf(),
        ensures
            final(self).wf(),
            final(self)@ == old(self)@,
            r == (if get0(old(self)@.balances, (owner, token_id)) == 0 {
                Err(FractionalError::InsufficientShares)
            } else {
                Ok(get0(old(self)@.balances, (owner, token_id)))
            }),
    {
        let shares = Self::lookup0(&self.balances, &(owner, token_id));
        if shares == 0 {
            return Err(FractionalError::InsufficientShares);
        }
        self.balances.insert((owner, token_id), shares);
        assert(self.balances@ =~= old(self).balances@);
        Ok(shares)
    }

    /// Lists `shares` of `token_id` held by `caller` at `price_per_share`,
    /// replacing an earlier listing and recording the price as the last price.
    pub fn list_shares_for_sale(
        &mut self,
        caller: AccountId,
        token_id: u64,
        shares: u128,
        price_per_share: u128,
    ) -> (r: Result<(), FractionalError>)
        requires
            old(self).wf(),
        ensures
            final(self).wf(),
            shares == 0 ==> r == Err::<(), FractionalError>(FractionalError::ZeroAmount) && final(self)@
                == old(self)@,
            shares != 0 && get0(old(self)@.balances, (caller, token_id)) < shares ==> r == Err::<
                (),
                FractionalError,
            >(FractionalError::InsufficientShares) && final(self)@ == old(self)@,
            shares != 0 && get0(old(self)@.balances, (caller, token_id)) >= shares ==> r == Ok::<
                (),
                FractionalError,
            >(()) && final(self)@ == (FractionalState {
                listings: old(self)@.listings.insert(
                    (caller, token_id),
                    ShareListing { seller: caller, token_id, shares, price_per_share },
                ),
                last_prices: old(self)@.last_prices.insert(token_id, price_per_share),
                ..old(self)@
            }),
    {
        if shares == 0 {
            return Err(FractionalError::ZeroAmount);
        }
        let held = Self::lookup0(&self.balances, &(caller, token_id));
        if held < shares {
            return Err(FractionalError::InsufficientShares);
        }
        let listing = ShareListing { seller: caller, token_id, shares, price_per_share };
        self.listings.insert((caller, token_id), listing);
        self.last_prices.insert(token_id, price_per_share);
        Ok(())
    }

    /// Withdraws `caller`'s listing of `token_id`.
    pub fn cancel_listing(&mut self, caller: AccountId, token_id: u64) -> (r: Result<(), FractionalError>)
        requires
            old(self).wf(),
        ensures
            final(self).wf(),
            old(self)@.listings.contains_key((caller, token_id)) ==> r == Ok::<(), FractionalError>(())
                && final(self)@ == (FractionalState {
                listings: old(self)@.listings.remove((caller, token_id)),
                ..old(self)@
            }),
            !old(self)@.listings.contains_key((caller, token_id)) ==> r == Err::<(), FractionalError>(
                FractionalError::ListingNotFound,
            ) && final(self)@ == old(self)@,
    {
        if !self.listings.contains(&(caller, token_id)) {
            return Err(FractionalError::ListingNotFound);
        }
        self.listings.remove(&(caller, token_id));
        Ok(())
    }

    /// The listing of `token_id` by `seller`, if any.
    pub fn get_listing(&self, seller: AccountId, token_id: u64) -> (r: Option<ShareListing>)
        requires
            self.wf(),
        ensures
            r == (if self@.listings.contains_key((seller, token_id)) {
                Some(self@.listings[(seller, token_id)])
            } else {
                None
            }),
    {
        match self.listings.get(&(seller, token_id)) {
            Some(l) => Some(*l),
            None => None,
        }
    }
}


/// The first check a purchase from a listing fails, if any.
pub open spec fn buy_error(
    s: FractionalState,
    payment: u128,
    seller: AccountId,
    token_id: u64,
    shares: u128,
) -> Option<FractionalError> {
    if s.locked {
        Some(FractionalError::ReentrantCall)
    } else if shares == 0 {
        Some(FractionalError::ZeroAmount)
    } else if !s.listings.contains_key((seller, token_id)) {
        Some(FractionalError::ListingNotFound)
    } else if shares > s.listings[(seller, token_id)].shares {
        Some(FractionalError::InsufficientShares)
    } else if payment < smul(s.listings[(seller, token_id)].price_per_share, shares) {
        Some(FractionalError::InsufficientPayment)
    } else {
        None
    }
}

/// The state after `buyer` buys `shares` from `seller`'s listing: the shares move
/// from seller to buyer, the listing shrinks (or goes when emptied) and the
/// seller is owed the price.
pub open spec fn buy_next(
    s: FractionalState,
    buyer: AccountId,
    seller: AccountId,
    token_id: u64,
    shares: u128,
) -> FractionalState {
    let listing = s.listings[(seller, token_id)];
    let total_price = smul(listing.price_per_share, shares);
    let b1 = s.balances.insert(
        (seller, token_id),
        ssub(get0(s.balances, (seller, token_id)), shares),
    );
    let b2 = b1.insert((buyer, token_id), sadd(get0(b1, (buyer, token_id)), shares));
    let remaining = ssub(listing.shares, shares);
    FractionalState {
        balances: b2,
        listings: if remaining == 0 {
            s.listings.remove((seller, token_id))
        } else {
            s.listings.insert((seller, token_id), ShareListing { shares: remaining, ..listing })
        },
        payouts: s.payouts.push((seller, total_price)),
        ..s
    }
}

/// The first check a redemption fails, if any.
pub open spec fn redeem_error(s: FractionalState, caller: AccountId, token_id: u64, shares: u128) -> Option<
    FractionalError,
> {
    if s.locked {
        Some(FractionalError::ReentrantCall)
    } else if shares == 0 {
        Some(FractionalError::ZeroAmount)
    } else if get0(s.balances, (caller, token_id)) < shares {
        Some(FractionalError::InsufficientShares)
    } else {
        None
    }
}

/// What a redemption of `shares` pays: the last price times the shares.
pub open spec fn redeem_payout(s: FractionalState, token_id: u64, shares: u128) -> u128 {
    smul(get0(s.last_prices, token_id), shares)
}

/// The state after a redemption: the shares are burnt and the payout is owed.
pub open spec fn redeem_next(s: FractionalState, caller: AccountId, token_id: u64, shares: u128) -> FractionalState {
    let payout = redeem_payout(s, token_id, shares);
    FractionalState {
        balances: s.balances.insert(
            (caller, token_id),
            ssub(get0(s.balances, (caller, token_id)), shares),
        ),
        total_shares: s.total_shares.insert(token_id, ssub(get0(s.total_shares, token_id), shares)),
        payouts: if payout > 0 {
            s.payouts.push((caller, payout))
        } else {
            s.payouts
        },
        ..s
    }
}

/// The first check a liquidity deposit fails before pricing, if any.
pub open spec fn add_liquidity_precheck(
    s: FractionalState,
    caller: AccountId,
    value_in: u128,
    token_id: u64,
    share_amount: u128,
) -> Option<FractionalError> {
    if s.locked {
        Some(FractionalError::ReentrantCall)
    } else if share_amount == 0 || value_in == 0 {
        Some(FractionalError::ZeroAmount)
    } else if get0(s.balances, (caller, token_id)) < share_amount {
        Some(FractionalError::InsufficientShares)
    } else {
        None
    }
}

/// LP tokens minted for a deposit: the floor square root of the product for a new
/// pool, else the smaller of the two proportional amounts.
pub open spec fn add_liquidity_minted(s: FractionalState, value_in: u128, token_id: u64, share_amount: u128) -> u128 {
    if !s.amm_pools.contains_key(token_id) {
        floor_sqrt(smul(share_amount, value_in) as int) as u128
    } else {
        let p = s.amm_pools[token_id];
        let by_share = sdiv(smul(share_amount, p.lp_supply), p.share_reserve);
        let by_value = sdiv(smul(value_in, p.lp_supply), p.value_reserve);
        if by_share <= by_value {
            by_share
        } else {
            by_value
        }
    }
}

/// The pool after a deposit that minted `lp` tokens.
pub open spec fn add_liquidity_pool(s: FractionalState, value_in: u128, token_id: u64, share_amount: u128, lp: u128) -> AmmPool {
    if !s.amm_pools.contains_key(token_id) {
        AmmPool { share_reserve: share_amount, value_reserve: value_in, lp_supply: lp }
    } else {
        let p = s.amm_pools[token_id];
        AmmPool {
            share_reserve: sadd(p.share_reserve, share_amount),
            value_reserve: sadd(p.value_reserve, value_in),
            lp_supply: sadd(p.lp_supply, lp),
        }
    }
}

/// The last-price table after a pool changed: the spot price is recorded when
/// the pool holds shares.
pub open spec fn with_spot(prices: Map<u64, u128>, token_id: u64, pool: AmmPool) -> Map<u64, u128> {
    if pool.share_reserve > 0 {
        prices.insert(token_id, pool.value_reserve / pool.share_reserve)
    } else {
        prices
    }
}

/// The state after a deposit that minted `lp` tokens.
pub open spec fn add_liquidity_next(
    s: FractionalState,
    caller: AccountId,
    value_in: u128,
    token_id: u64,
    share_amount: u128,
    lp: u128,
) -> FractionalState {
    let pool = add_liquidity_pool(s, value_in, token_id, share_amount, lp);
    FractionalState {
        balances: s.balances.insert(
            (caller, token_id),
            ssub(get0(s.balances, (caller, token_id)), share_amount),
        ),
        last_prices: with_spot(s.last_prices, token_id, pool),
        amm_pools: s.amm_pools.insert(token_id, pool),
        lp_balances: s.lp_balances.insert(
            (caller, token_id),
            sadd(get0(s.lp_balances, (caller, token_id)), lp),
        ),
        ..s
    }
}

/// The first check a liquidity withdrawal fails, if any.
pub open spec fn remove_liquidity_error(
    s: FractionalState,
    caller: AccountId,
    token_id: u64,
    lp_amount: u128,
    min_shares_out: u128,
    min_value_out: u128,
) -> Option<FractionalError> {
    if s.locked {
        Some(FractionalError::ReentrantCall)
    } else if lp_amount == 0 {
        Some(FractionalError::ZeroAmount)
    } else if get0(s.lp_balances, (caller, token_id)) < lp_amount {
        Some(FractionalError::InsufficientLpShares)
    } else if !s.amm_pools.contains_key(token_id) {
        Some(FractionalError::PoolNotFound)
    } else if remove_liquidity_out(s.amm_pools[token_id], lp_amount).0 < min_shares_out
        || remove_liquidity_out(s.amm_pools[token_id], lp_amount).1 < min_value_out {
        Some(FractionalError::SlippageExceeded)
    } else {
        None
    }
}

/// Shares and value paid out for burning `lp_amount` tokens: their pro-rata part of each reserve.
pub open spec fn remove_liquidity_out(p: AmmPool, lp_amount: u128) -> (u128, u128) {
    (sdiv(smul(lp_amount, p.share_reserve), p.lp_supply), sdiv(smul(lp_amount, p.value_reserve), p.lp_supply))
}

/// The state after burning `lp_amount` tokens.
pub open spec fn remove_liquidity_next(s: FractionalState, caller: AccountId, token_id: u64, lp_amount: u128) -> FractionalState {
    let p = s.amm_pools[token_id];
    let (shares_out, value_out) = remove_liquidity_out(p, lp_amount);
    let pool = AmmPool {
        share_reserve: ssub(p.share_reserve, shares_out),
        value_reserve: ssub(p.value_reserve, value_out),
        lp_supply: ssub(p.lp_supply, lp_amount),
    };
    FractionalState {
        balances: s.balances.insert(
            (caller, token_id),
            sadd(get0(s.balances, (caller, token_id)), shares_out),
        ),
        lp_balances: s.lp_balances.insert(
            (caller, token_id),
            ssub(get0(s.lp_balances, (caller, token_id)), lp_amount),
        ),
        amm_pools: s.amm_pools.insert(token_id, pool),
        last_prices: with_spot(s.last_prices, token_id, pool),
        payouts: if value_out > 0 {
            s.payouts.push((caller, value_out))
        } else {
            s.payouts
        },
        ..s
    }
}

/// Value paid for selling `shares_in` into a pool: the constant-product
/// output after keeping a 0.3 % fee in the pool.
pub open spec fn swap_value_out(p: AmmPool, shares_in: u128) -> u128 {
    let with_fee = smul(shares_in, 9970);
    sdiv(smul(with_fee, p.value_reserve), sadd(smul(p.share_reserve, 10000), with_fee))
}

/// The first check a share sale into the pool fails, if any.
pub open spec fn swap_error(s: FractionalState, caller: AccountId, token_id: u64, shares_in: u128, min_value_out: u128) -> Option<
    FractionalError,
> {
    if s.locked {
        Some(FractionalError::ReentrantCall)
    } else if shares_in == 0 {
        Some(FractionalError::ZeroAmount)
    } else if get0(s.balances, (caller, token_id)) < shares_in {
        Some(FractionalError::InsufficientShares)
    } else if !s.amm_pools.contains_key(token_id) {
        Some(FractionalError::PoolNotFound)
    } else if s.amm_pools[token_id].value_reserve == 0 || s.amm_pools[token_id].share_reserve == 0 {
        Some(FractionalError::InsufficientLiquidity)
    } else if swap_value_out(s.amm_pools[token_id], shares_in) < min_value_out {
        Some(FractionalError::SlippageExceeded)
    } else if swap_value_out(s.amm_pools[token_id], shares_in) >= s.amm_pools[token_id].value_reserve {
        Some(FractionalError::InsufficientLiquidity)
    } else {
        None
    }
}

/// The state after selling `shares_in` into the pool: the shares leave the
/// seller and the supply, the pool's reserves move, and the value is owed.
pub open spec fn swap_next(s: FractionalState, caller: AccountId, token_id: u64, shares_in: u128) -> FractionalState {
    let p = s.amm_pools[token_id];
    let value_out = swap_value_out(p, shares_in);
    let pool = AmmPool {
        share_reserve: sadd(p.share_reserve, shares_in),
        value_reserve: ssub(p.value_reserve, value_out),
        lp_supply: p.lp_supply,
    };
    FractionalState {
        balances: s.balances.insert(
            (caller, token_id),
            ssub(get0(s.balances, (caller, token_id)), shares_in),
        ),
        total_shares: s.total_shares.insert(token_id, ssub(get0(s.total_shares, token_id), shares_in)),
        last_prices: with_spot(s.last_prices, token_id, pool),
        amm_pools: s.amm_pools.insert(token_id, pool),
        payouts: if value_out > 0 {
            s.payouts.push((caller, value_out))
        } else {
            s.payouts
        },
        ..s
    }
}

impl Fractional {
    /// Buys `shares` from `seller`'s listing of `token_id` for the attached `payment`.
    pub fn buy_shares(
        &mut self,
        caller: AccountId,
        payment: u128,
        seller: AccountId,
        token_id: u64,
        shares: u128,
    ) -> (r: Result<(), FractionalError>)
        requires
            old(self).wf(),
        ensures
            final(self).wf(),
            match buy_error(old(self)@, payment, seller, token_id, shares) {
                Some(e) => r == Err::<(), FractionalError>(e) && final(self)@ == old(self)@,
                None => r == Ok::<(), FractionalError>(()) && final(self)@ == buy_next(
                    old(self)@,
                    caller,
                    seller,
                    token_id,
                    shares,
                ),
            },
    {
        if self.reentrancy_guard.locked {
            return Err(FractionalError::ReentrantCall);
        }
        if shares == 0 {
            return Err(FractionalError::ZeroAmount);
        }
        let listing = match self.listings.get(&(seller, token_id)) {
            Some(l) => *l,
            None => return Err(FractionalError::ListingNotFound),
        };
        if shares > listing.shares {
            return Err(FractionalError::InsufficientShares);
        }
        let total_price = sat_mul(listing.price_per_share, shares);
        if payment < total_price {
            return Err(FractionalError::InsufficientPayment);
        }
        let seller_held = Self::lookup0(&self.balances, &(seller, token_id));
        self.balances.insert((seller, token_id), seller_held.saturating_sub(shares));
        let buyer_held = Self::lookup0(&self.balances, &(caller, token_id));
        self.balances.insert((caller, token_id), buyer_held.saturating_add(shares));
        let remaining = listing.shares.saturating_sub(shares);
        if remaining == 0 {
            self.listings.remove(&(seller, token_id));
        } else {
            let updated = ShareListing { shares: remaining, ..listing };
            self.listings.insert((seller, token_id), updated);
        }
        self.payouts.push((seller, total_price));
        assert(self@ =~= buy_next(old(self)@, caller, seller, token_id, shares));
        Ok(())
    }

    /// Burns `shares` of `token_id` held by `caller` and owes them the last price per share.
    pub fn redeem_shares(&mut self, caller: AccountId, token_id: u64, shares: u128) -> (r: Result<
        u128,
        FractionalError,
    >)
        requires
            old(self).wf(),
        ensures
            final(self).wf(),
            match redeem_error(old(self)@, caller, token_id, shares) {
                Some(e) => r == Err::<u128, FractionalError>(e) && final(self)@ == old(self)@,
                None => r == Ok::<u128, FractionalError>(redeem_payout(old(self)@, token_id, shares))
                    && final(self)@ == redeem_next(old(self)@, caller, token_id, shares),
            },
    {
        if self.reentrancy_guard.locked {
            return Err(FractionalError::ReentrantCall);
        }
        if shares == 0 {
            return Err(FractionalError::ZeroAmount);
        }
        let held = Self::lookup0(&self.balances, &(caller, token_id));
        if held < shares {
            return Err(FractionalError::InsufficientShares);
        }
        let price = Self::lookup0(&self.last_prices, &token_id);
        let payout = sat_mul(price, shares);
        self.balances.insert((caller, token_id), held.saturating_sub(shares));
        let total = Self::lookup0(&self.total_shares, &token_id);
        self.total_shares.insert(token_id, total.saturating_sub(shares));
        if payout > 0 {
            self.payouts.push((caller, payout));
        }
        assert(self@ =~= redeem_next(old(self)@, caller, token_id, shares));
        Ok(payout)
    }

    fn record_spot(&mut self, token_id: u64, pool: AmmPool)
        requires
            old(self).wf(),
        ensures
            final(self).wf(),
            final(self)@ == (FractionalState {
                last_prices: with_spot(old(self)@.last_prices, token_id, pool),
                ..old(self)@
            }),
    {
        if pool.share_reserve > 0 {
            let spot = pool.value_reserve / pool.share_reserve;
            self.last_prices.insert(token_id, spot);
        }
    }

    /// Deposits `share_amount` shares and the attached `value_in` into the pool of
    /// `token_id`, creating it on first deposit, and mints LP tokens to `caller`.
    pub fn add_liquidity(
        &mut self,
        caller: AccountId,
        value_in: u128,
        token_id: u64,
        share_amount: u128,
        min_lp_out: u128,
    ) -> (r: Result<u128, FractionalError>)
        requires
            old(self).wf(),
            add_liquidity_precheck(old(self)@, caller, value_in, token_id, share_amount) is None
                && !old(self)@.amm_pools.contains_key(token_id) ==> smul(share_amount, value_in)
                < u128::MAX,
        ensures
            final(self).wf(),
            match add_liquidity_precheck(old(self)@, caller, value_in, token_id, share_amount) {
                Some(e) => r == Err::<u128, FractionalError>(e) && final(self)@ == old(self)@,
                None => {
                    let lp = add_liquidity_minted(old(self)@, value_in, token_id, share_amount);
                    if lp < min_lp_out {
                        r == Err::<u128, FractionalError>(FractionalError::SlippageExceeded)
                            && final(self)@ == old(self)@
                    } else {
                        r == Ok::<u128, FractionalError>(lp) && final(self)@ == add_liquidity_next(
                            old(self)@,
                            caller,
                            value_in,
                            token_id,
                            share_amount,
                            lp,
                        )
                    }
                },
            },
    {
        if self.reentrancy_guard.locked {
            return Err(FractionalError::ReentrantCall);
        }
        if share_amount == 0 {
            return Err(FractionalError::ZeroAmount);
        }
        if value_in == 0 {
            return Err(FractionalError::ZeroAmount);
        }
        let held = Self::lookup0(&self.balances, &(caller, token_id));
        if held < share_amount {
            return Err(FractionalError::InsufficientShares);
        }
        let existing = match self.amm_pools.get(&token_id) {
            Some(p) => Some(*p),
            None => None,
        };
        let lp_minted: u128;
        let updated: AmmPool;
        match existing {
            None => {
                lp_minted = isqrt(sat_mul(share_amount, value_in));
                updated = AmmPool { share_reserve: share_amount, value_reserve: value_in, lp_supply: lp_minted };
            },
            Some(p) => {
                let lp_by_share = div_or_zero(sat_mul(share_amount, p.lp_supply), p.share_reserve);
                let lp_by_value = div_or_zero(sat_mul(value_in, p.lp_supply), p.value_reserve);
                lp_minted = if lp_by_share <= lp_by_value {
                    lp_by_share
                } else {
                    lp_by_value
                };
                updated = AmmPool {
                    share_reserve: p.share_reserve.saturating_add(share_amount),
                    value_reserve: p.value_reserve.saturating_add(value_in),
                    lp_supply: p.lp_supply.saturating_add(lp_minted),
                };
            },
        }
        assert(lp_minted == add_liquidity_minted(old(self)@, value_in, token_id, share_amount));
        if lp_minted < min_lp_out {
            return Err(FractionalError::SlippageExceeded);
        }
        self.balances.insert((caller, token_id), held.saturating_sub(share_amount));
        self.record_spot(token_id, updated);
        self.amm_pools.insert(token_id, updated);
        let lp_held = Self::lookup0(&self.lp_balances, &(caller, token_id));
        self.lp_balances.insert((caller, token_id), lp_held.saturating_add(lp_minted));
        assert(self@ =~= add_liquidity_next(
            old(self)@,
            caller,
            value_in,
            token_id,
            share_amount,
            lp_minted,
        ));
        Ok(lp_minted)
    }

    /// Burns `lp_amount` LP tokens of `caller` for their part of the pool's shares and value.
    pub fn remove_liquidity(
        &mut self,
        caller: AccountId,
        token_id: u64,
        lp_amount: u128,
        min_shares_out: u128,
        min_value_out: u128,
    ) -> (r: Result<(u128, u128), FractionalError>)
        requires
            old(self).wf(),
        ensures
            final(self).wf(),
            match remove_liquidity_error(
                old(self)@,
                caller,
                token_id,
                lp_amount,
                min_shares_out,
                min_value_out,
            ) {
                Some(e) => r == Err::<(u128, u128), FractionalError>(e) && final(self)@ == old(self)@,
                None => r == Ok::<(u128, u128), FractionalError>(
                    remove_liquidity_out(old(self)@.amm_pools[token_id], lp_amount),
                ) && final(self)@ == remove_liquidity_next(old(self)@, caller, token_id, lp_amount),
            },
    {
        if self.reentrancy_guard.locked {
            return Err(FractionalError::ReentrantCall);
        }
        if lp_amount == 0 {
            return Err(FractionalError::ZeroAmount);
        }
        let lp_held = Self::lookup0(&self.lp_balances, &(caller, token_id));
        if lp_held < lp_amount {
            return Err(FractionalError::InsufficientLpShares);
        }
        let pool = match self.amm_pools.get(&token_id) {
            Some(p) => *p,
            None => return Err(FractionalError::PoolNotFound),
        };
        let shares_out = div_or_zero(sat_mul(lp_amount, pool.share_reserve), pool.lp_supply);
        let value_out = div_or_zero(sat_mul(lp_amount, pool.value_reserve), pool.lp_supply);
        if shares_out < min_shares_out || value_out < min_value_out {
            return Err(FractionalError::SlippageExceeded);
        }
        let updated = AmmPool {
            share_reserve: pool.share_reserve.saturating_sub(shares_out),
            value_reserve: pool.value_reserve.saturating_sub(value_out),
            lp_supply: pool.lp_supply.saturating_sub(lp_amount),
        };
        let bal = Self::lookup0(&self.balances, &(caller, token_id));
        self.balances.insert((caller, token_id), bal.saturating_add(shares_out));
        self.lp_balances.insert((caller, token_id), lp_held.saturating_sub(lp_amount));
        self.amm_pools.insert(token_id, updated);
        self.record_spot(token_id, updated);
        if value_out > 0 {
            self.payouts.push((caller, value_out));
        }
        assert(self@ =~= remove_liquidity_next(old(self)@, caller, token_id, lp_amount));
        Ok((shares_out, value_out))
    }

    /// Sells `shares_in` shares of `token_id` into its pool for native value.
    pub fn swap_shares_for_value(
        &mut self,
        caller: AccountId,
        token_id: u64,
        shares_in: u128,
        min_value_out: u128,
    ) -> (r: Result<u128, FractionalError>)
        requires
            old(self).wf(),
        ensures
            final(self).wf(),
            match swap_error(old(self)@, caller, token_id, shares_in, min_value_out) {
                Some(e) => r == Err::<u128, FractionalError>(e) && final(self)@ == old(self)@,
                None => r == Ok::<u128, FractionalError>(
                    swap_value_out(old(self)@.amm_pools[token_id], shares_in),
                ) && final(self)@ == swap_next(old(self)@, caller, token_id, shares_in),
            },
    {
        if self.reentrancy_guard.locked {
            return Err(FractionalError::ReentrantCall);
        }
        if shares_in == 0 {
            return Err(FractionalError::ZeroAmount);
        }
        let held = Self::lookup0(&self.balances, &(caller, token_id));
        if held < shares_in {
            return Err(FractionalError::InsufficientShares);
        }
        let pool = match self.amm_pools.get(&token_id) {
            Some(p) => *p,
            None => return Err(FractionalError::PoolNotFound),
        };
        if pool.value_reserve == 0 || pool.share_reserve == 0 {
            return Err(FractionalError::InsufficientLiquidity);
        }
        let shares_in_with_fee = sat_mul(shares_in, 9970);
        let numerator = sat_mul(shares_in_with_fee, pool.value_reserve);
        let denominator = sat_mul(pool.share_reserve, 10000).saturating_add(shares_in_with_fee);
        let value_out = div_or_zero(numerator, denominator);
        if value_out < min_value_out {
            return Err(FractionalError::SlippageExceeded);
        }
        if value_out >= pool.value_reserve {
            return Err(FractionalError::InsufficientLiquidity);
        }
        let updated = AmmPool {
            share_reserve: pool.share_reserve.saturating_add(shares_in),
            value_reserve: pool.value_reserve.saturating_sub(value_out),
            lp_supply: pool.lp_supply,
        };
        self.balances.insert((caller, token_id), held.saturating_sub(shares_in));
        let total = Self::lookup0(&self.total_shares, &token_id);
        self.total_shares.insert(token_id, total.saturating_sub(shares_in));
        self.record_spot(token_id, updated);
        self.amm_pools.insert(token_id, updated);
        if value_out > 0 {
            self.payouts.push((caller, value_out));
        }
        assert(self@ =~= swap_next(old(self)@, caller, token_id, shares_in));
        Ok(value_out)
    }

    /// Value per share in the pool of `token_id`.
    pub fn get_spot_price(&self, token_id: u64) -> (r: Result<u128, FractionalError>)
        requires
            self.wf(),
        ensures
            r == (if !self@.amm_pools.contains_key(token_id) {
                Err(FractionalError::PoolNotFound)
            } else if self@.amm_pools[token_id].share_reserve == 0 {
                Err(FractionalError::InsufficientLiquidity)
            } else {
                Ok(self@.amm_pools[token_id].value_reserve / self@.amm_pools[token_id].share_reserve)
            }),
    {
        let pool = match self.amm_pools.get(&token_id) {
            Some(p) => *p,
            None => return Err(FractionalError::PoolNotFound),
        };
        if pool.share_reserve == 0 {
            return Err(FractionalError::InsufficientLiquidity);
        }
        Ok(pool.value_reserve / pool.share_reserve)
    }

    /// The pool of `token_id`, if any.
    pub fn get_pool(&self, token_id: u64) -> (r: Option<AmmPool>)
        requires
            self.wf(),
        ensures
            r == (if self@.amm_pools.contains_key(token_id) {
                Some(self@.amm_pools[token_id])
            } else {
                None
            }),
    {
        match self.amm_pools.get(&token_id) {
            Some(p) => Some(*p),
            None => None,
        }
    }

    /// LP tokens of `token_id`'s pool held by `provider`.
    pub fn lp_balance_of(&self, provider: AccountId, token_id: u64) -> (r: u128)
        requires
            self.wf(),
        ensures
            r == get0(self@.lp_balances, (provider, token_id)),
    {
        Self::lookup0(&self.lp_balances, &(provider, token_id))
    }

    /// Integer square root (floor).
    pub fn isqrt(n: u128) -> (r: u128)
        requires
            n < u128::MAX,
        ensures
            is_floor_sqrt(r as int, n as int),
    {
        isqrt(n)
    }
}


/// The first check a Dutch-auction bid fails, if any.
pub open spec fn bid_error(s: FractionalState, payment: u128, block: u32, auction_id: u64) -> Option<FractionalError> {
    if !s.dutch_auctions.contains_key(auction_id) {
        Some(FractionalError::AuctionNotFound)
    } else if s.dutch_auctions[auction_id].has_bids {
        Some(FractionalError::AuctionAlreadyBid)
    } else if payment < smul(
        spec_dutch_price(s.dutch_auctions[auction_id], block as u64),
        s.dutch_auctions[auction_id].shares,
    ) {
        Some(FractionalError::InsufficientPayment)
    } else {
        None
    }
}

/// The state after `buyer` wins a Dutch auction: the shares move from the seller,
/// the auction is marked as bid and the seller is owed the price.
pub open spec fn bid_next(s: FractionalState, buyer: AccountId, block: u32, auction_id: u64) -> FractionalState {
    let a = s.dutch_auctions[auction_id];
    let total_price = smul(spec_dutch_price(a, block as u64), a.shares);
    let b1 = s.balances.insert(
        (a.seller, a.token_id),
        ssub(get0(s.balances, (a.seller, a.token_id)), a.shares),
    );
    let b2 = b1.insert((buyer, a.token_id), sadd(get0(b1, (buyer, a.token_id)), a.shares));
    FractionalState {
        balances: b2,
        dutch_auctions: s.dutch_auctions.insert(auction_id, DutchAuction { has_bids: true, ..a }),
        payouts: s.payouts.push((a.seller, total_price)),
        ..s
    }
}

impl Fractional {
    /// Current price of `auction` at `current_block`.
    pub fn calculate_dutch_price(auction: &DutchAuction, current_block: u64) -> (r: u128)
        ensures
            r == spec_dutch_price(*auction, current_block),
    {
        if current_block >= auction.start_time.saturating_add(auction.duration) {
            return auction.end_price;
        }
        if current_block <= auction.start_time {
            return auction.start_price;
        }
        let elapsed = (current_block - auction.start_time) as u128;
        let duration = auction.duration as u128;
        let price_decrease = sat_mul(auction.start_price.saturating_sub(auction.end_price), elapsed)
            / duration;
        auction.start_price.saturating_sub(price_decrease)
    }

    /// Opens a Dutch auction of `shares` of `token_id` held by `caller`, starting at `block`.
    pub fn create_dutch_auction(
        &mut self,
        caller: AccountId,
        block: u32,
        token_id: u64,
        shares: u128,
        start_price: u128,
        end_price: u128,
        duration: u64,
    ) -> (r: Result<u64, FractionalError>)
        requires
            old(self).wf(),
        ensures
            final(self).wf(),
            (shares == 0 || duration == 0 || start_price == 0 || end_price == 0) ==> r == Err::<
                u64,
                FractionalError,
            >(FractionalError::ZeroAmount) && final(self)@ == old(self)@,
            !(shares == 0 || duration == 0 || start_price == 0 || end_price == 0) && get0(
                old(self)@.balances,
                (caller, token_id),
            ) < shares ==> r == Err::<u64, FractionalError>(FractionalError::InsufficientShares)
                && final(self)@ == old(self)@,
            !(shares == 0 || duration == 0 || start_price == 0 || end_price == 0) && get0(
                old(self)@.balances,
                (caller, token_id),
            ) >= shares ==> r == Ok::<u64, FractionalError>(old(self)@.auction_counter)
                && final(self)@ == (FractionalState {
                dutch_auctions: old(self)@.dutch_auctions.insert(
                    old(self)@.auction_counter,
                    DutchAuction {
                        seller: caller,
                        token_id,
                        shares,
                        start_price,
                        end_price,
                        start_time: block as u64,
                        duration,
                        has_bids: false,
                    },
                ),
                auction_counter: sadd64(old(self)@.auction_counter, 1),
                ..old(self)@
            }),
    {
        if shares == 0 || duration == 0 {
            return Err(FractionalError::ZeroAmount);
        }
        if start_price == 0 || end_price == 0 {
            return Err(FractionalError::ZeroAmount);
        }
        let held = Self::lookup0(&self.balances, &(caller, token_id));
        if held < shares {
            return Err(FractionalError::InsufficientShares);
        }
        let auction_id = self.auction_counter;
        self.auction_counter = self.auction_counter.saturating_add(1);
        let auction = DutchAuction {
            seller: caller,
            token_id,
            shares,
            start_price,
            end_price,
            start_time: block as u64,
            duration,
            has_bids: false,
        };
        self.dutch_auctions.insert(auction_id, auction);
        Ok(auction_id)
    }

    /// The Dutch auction `auction_id`, if any.
    pub fn get_dutch_auction(&self, auction_id: u64) -> (r: Option<DutchAuction>)
        requires
            self.wf(),
        ensures
            r == (if self@.dutch_auctions.contains_key(auction_id) {
                Some(self@.dutch_auctions[auction_id])
            } else {
                None
            }),
    {
        match self.dutch_auctions.get(&auction_id) {
            Some(a) => Some(*a),
            None => None,
        }
    }

    /// The current price of Dutch auction `auction_id` at `block`.
    pub fn get_dutch_auction_price(&self, block: u32, auction_id: u64) -> (r: Result<u128, FractionalError>)
        requires
            self.wf(),
        ensures
            r == (if self@.dutch_auctions.contains_key(auction_id) {
                Ok(spec_dutch_price(self@.dutch_auctions[auction_id], block as u64))
            } else {
                Err(FractionalError::AuctionNotFound)
            }),
    {
        let auction = match self.dutch_auctions.get(&auction_id) {
            Some(a) => *a,
            None => return Err(FractionalError::AuctionNotFound),
        };
        Ok(Self::calculate_dutch_price(&auction, block as u64))
    }

    /// Buys all shares of Dutch auction `auction_id` at its current price with the attached `payment`.
    pub fn bid_dutch_auction(&mut self, caller: AccountId, payment: u128, block: u32, auction_id: u64) -> (r:
        Result<(), FractionalError>)
        requires
            old(self).wf(),
        ensures
            final(self).wf(),
            match bid_error(old(self)@, payment, block, auction_id) {
                Some(e) => r == Err::<(), FractionalError>(e) && final(self)@ == old(self)@,
                None => r == Ok::<(), FractionalError>(()) && final(self)@ == bid_next(
                    old(self)@,
                    caller,
                    block,
                    auction_id,
                ),
            },
    {
        let auction = match self.dutch_auctions.get(&auction_id) {
            Some(a) => *a,
            None => return Err(FractionalError::AuctionNotFound),
        };
        if auction.has_bids {
            return Err(FractionalError::AuctionAlreadyBid);
        }
        let current_price = Self::calculate_dutch_price(&auction, block as u64);
        let total_price = sat_mul(current_price, auction.shares);
        if payment < total_price {
            return Err(FractionalError::InsufficientPayment);
        }
        let seller_held = Self::lookup0(&self.balances, &(auction.seller, auction.token_id));
        self.balances.insert((auction.seller, auction.token_id), seller_held.saturating_sub(auction.shares));
        let buyer_held = Self::lookup0(&self.balances, &(caller, auction.token_id));
        self.balances.insert((caller, auction.token_id), buyer_held.saturating_add(auction.shares));
        let updated = DutchAuction { has_bids: true, ..auction };
        self.dutch_auctions.insert(auction_id, updated);
        self.payouts.push((auction.seller, total_price));
        assert(self@ =~= bid_next(old(self)@, caller, block, auction_id));
        Ok(())
    }

    /// Withdraws Dutch auction `auction_id`; only its seller may, and only before a bid.
    pub fn cancel_dutch_auction(&mut self, caller: AccountId, auction_id: u64) -> (r: Result<(), FractionalError>)
        requires
            old(self).wf(),
        ensures
            final(self).wf(),
            r == (if !old(self)@.dutch_auctions.contains_key(auction_id) {
                Err(FractionalError::AuctionNotFound)
            } else if caller != old(self)@.dutch_auctions[auction_id].seller {
                Err(FractionalError::Unauthorized)
            } else if old(self)@.dutch_auctions[auction_id].has_bids {
                Err(FractionalError::AuctionAlreadyBid)
            } else {
                Ok(())
            }),
            r is Ok ==> final(self)@ == (FractionalState {
                dutch_auctions: old(self)@.dutch_auctions.remove(auction_id),
                ..old(self)@
            }),
            r is Err ==> final(self)@ == old(self)@,
    {
        let auction = match self.dutch_auctions.get(&auction_id) {
            Some(a) => *a,
            None => return Err(FractionalError::AuctionNotFound),
        };
        if caller != auction.seller {
            return Err(FractionalError::Unauthorized);
        }
        if auction.has_bids {
            return Err(FractionalError::AuctionAlreadyBid);
        }
        self.dutch_auctions.remove(&auction_id);
        Ok(())
    }

    /// The administrator.
    pub fn get_admin(&self) -> (r: AccountId)
        ensures
            r == self@.admin,
    {
        self.admin
    }

    /// The administrator `caller` nominates `new_admin`, who may confirm after the cooldown.
    pub fn request_admin_rotation(&mut self, caller: AccountId, block: u32, new_admin: AccountId) -> (r: Result<
        (),
        FractionalError,
    >)
        requires
            old(self).wf(),
        ensures
            final(self).wf(),
            r == (if caller != old(self)@.admin {
                Err(FractionalError::Unauthorized)
            } else if old(self)@.pending_admin_rotation is Some {
                Err(FractionalError::KeyRotationCooldown)
            } else {
                Ok(())
            }),
            r is Ok ==> final(self)@ == (FractionalState {
                pending_admin_rotation: Some(rotation_request(caller, new_admin, block)),
                ..old(self)@
            }),
            r is Err ==> final(self)@ == old(self)@,
    {
        if caller != self.admin {
            return Err(FractionalError::Unauthorized);
        }
        if self.pending_admin_rotation.is_some() {
            return Err(FractionalError::KeyRotationCooldown);
        }
        self.pending_admin_rotation = Some(new_rotation_request(caller, new_admin, block));
        Ok(())
    }

    /// The nominee confirms a pending rotation between the end of the cooldown and its
    /// expiry; a confirmation after expiry drops the request.
    pub fn confirm_admin_rotation(&mut self, caller: AccountId, block: u32) -> (r: Result<(), FractionalError>)
        requires
            old(self).wf(),
        ensures
            final(self).wf(),
            match old(self)@.pending_admin_rotation {
                None => r == Err::<(), FractionalError>(FractionalError::NoPendingRotation)
                    && final(self)@ == old(self)@,
                Some(req) => if req.new_account != caller {
                    r == Err::<(), FractionalError>(FractionalError::RotationUnauthorized)
                        && final(self)@ == old(self)@
                } else if block < req.effective_at {
                    r == Err::<(), FractionalError>(FractionalError::KeyRotationCooldown)
                        && final(self)@ == old(self)@
                } else if block > sadd32(req.effective_at, KEY_ROTATION_EXPIRY_BLOCKS) {
                    r == Err::<(), FractionalError>(FractionalError::RequestExpired) && final(self)@
                        == (FractionalState { pending_admin_rotation: None, ..old(self)@ })
                } else {
                    r == Ok::<(), FractionalError>(()) && final(self)@ == (FractionalState {
                        admin: caller,
                        pending_admin_rotation: None,
                        ..old(self)@
                    })
                },
            },
    {
        let request = match self.pending_admin_rotation {
            Some(req) => req,
            None => return Err(FractionalError::NoPendingRotation),
        };
        if request.new_account != caller {
            return Err(FractionalError::RotationUnauthorized);
        }
        if block < request.effective_at {
            return Err(FractionalError::KeyRotationCooldown);
        }
        let expiry = request.effective_at.saturating_add(KEY_ROTATION_EXPIRY_BLOCKS);
        if block > expiry {
            self.pending_admin_rotation = None;
            return Err(FractionalError::RequestExpired);
        }
        self.admin = caller;
        self.pending_admin_rotation = None;
        Ok(())
    }

    /// The administrator who asked, or the nominee, withdraws a pending rotation.
    pub fn cancel_admin_rotation(&mut self, caller: AccountId) -> (r: Result<(), FractionalError>)
        requires
            old(self).wf(),
        ensures
            final(self).wf(),
            r == (match old(self)@.pending_admin_rotation {
                None => Err(FractionalError::NoPendingRotation),
                Some(req) => if caller != req.old_account && caller != req.new_account {
                    Err(FractionalError::RotationUnauthorized)
                } else {
                    Ok(())
                },
            }),
            r is Ok ==> final(self)@ == (FractionalState { pending_admin_rotation: None, ..old(self)@ }),
            r is Err ==> final(self)@ == old(self)@,
    {
        let request = match self.pending_admin_rotation {
            Some(req) => req,
            None => return Err(FractionalError::NoPendingRotation),
        };
        if caller != request.old_account && caller != request.new_account {
            return Err(FractionalError::RotationUnauthorized);
        }
        self.pending_admin_rotation = None;
        Ok(())
    }

    /// The pending rotation request, if any.
    pub fn get_pending_admin_rotation(&self) -> (r: Option<KeyRotationRequest>)
        ensures
            r == self@.pending_admin_rotation,
    {
        self.pending_admin_rotation
    }

    /// Native payments owed by the contract, in the order they arose.
    pub fn pending_payouts(&self) -> (r: &Vec<(AccountId, u128)>)
        ensures
            r@ == self@.payouts,
    {
        &self.payouts
    }
}

/// Trading shares through a listing conserves the shares of the pair: the
/// seller loses exactly what the buyer gains (when buyer and seller differ and
/// nothing saturates).
pub proof fn lemma_buy_conserves_shares(
    s: FractionalState,
    buyer: AccountId,
    seller: AccountId,
    token_id: u64,
    shares: u128,
)
    requires
        buyer != seller,
        get0(s.balances, (seller, token_id)) >= shares,
        get0(s.balances, (buyer, token_id)) + shares <= u128::MAX,
    ensures
        get0(buy_next(s, buyer, seller, token_id, shares).balances, (seller, token_id)) + get0(
            buy_next(s, buyer, seller, token_id, shares).balances,
            (buyer, token_id),
        ) == get0(s.balances, (seller, token_id)) + get0(s.balances, (buyer, token_id)),
{
}

/// Withdrawing all liquidity of a sole provider returns exactly what the pool holds.
pub proof fn lemma_full_withdrawal_empties_pool(p: AmmPool)
    requires
        p.lp_supply > 0,
        p.lp_supply * p.share_reserve <= u128::MAX,
        p.lp_supply * p.value_reserve <= u128::MAX,
    ensures
        remove_liquidity_out(p, p.lp_supply) == (p.share_reserve, p.value_reserve),
{
    vstd::arithmetic::div_mod::lemma_div_multiples_vanish(p.share_reserve as int, p.lp_supply as int);
    vstd::arithmetic::div_mod::lemma_div_multiples_vanish(p.value_reserve as int, p.lp_supply as int);
    assert(p.lp_supply * p.share_reserve == p.share_reserve * p.lp_supply) by (nonlinear_arith);
    assert(p.lp_supply * p.value_reserve == p.value_reserve * p.lp_supply) by (nonlinear_arith);
}

/// A sale into the pool never pays out the whole value reserve and never lowers the
/// product of the reserves (the constant-product invariant, up to the fee).
pub proof fn lemma_swap_keeps_product(p: AmmPool, shares_in: u128)
    requires
        p.share_reserve > 0,
        p.value_reserve > 0,
        shares_in > 0,
        shares_in * 9970 * p.value_reserve <= u128::MAX,
        p.share_reserve * 10000 + shares_in * 9970 <= u128::MAX,
        p.share_reserve + shares_in <= u128::MAX,
    ensures
        swap_value_out(p, shares_in) < p.value_reserve,
        (p.share_reserve + shares_in) * (p.value_reserve - swap_value_out(p, shares_in))
            >= p.share_reserve * p.value_reserve,
{
    let f = shares_in * 9970;
    let x = p.share_reserve as int;
    let y = p.value_reserve as int;
    let d = x * 10000 + f;
    assert(f * y <= u128::MAX) by (nonlinear_arith)
        requires
            f == shares_in * 9970,
            shares_in * 9970 * y <= u128::MAX,
    ;
    let out = (f * y) / d;
    assert(swap_value_out(p, shares_in) == out);
    vstd::arithmetic::div_mod::lemma_fundamental_div_mod(f * y, d);
    vstd::arithmetic::div_mod::lemma_mod_pos_bound(f * y, d);
    assert(d * out <= f * y);
    assert(out < y) by (nonlinear_arith)
        requires
            d * out <= f * y,
            d == x * 10000 + f,
            x > 0,
            y > 0,
            f >= 0,
            out >= 0,
    ;
    assert((x + shares_in) * (y - out) >= x * y) by (nonlinear_arith)
        requires
            d * out <= f * y,
            d == x * 10000 + f,
            f == shares_in * 9970,
            x > 0,
            y > 0,
            shares_in > 0,
            out >= 0,
            out < y,
    ;
}

} // verus!
