use lib::common::AccountId;
use lib::fractional::{Fractional, FractionalError, PortfolioItem};

fn alice() -> AccountId {
    AccountId::from_byte(1)
}
fn bob() -> AccountId {
    AccountId::from_byte(2)
}
fn charlie() -> AccountId {
    AccountId::from_byte(3)
}

fn setup() -> Fractional {
    Fractional::new(alice())
}

#[test]
fn test_mint_and_balance() {
    let mut f = setup();
    f.mint_shares(alice(), 1, 100);
    assert_eq!(f.balance_of(alice(), 1), 100);
}

#[test]
fn test_list_and_cancel() {
    let mut f = setup();
    f.mint_shares(alice(), 1, 100);
    assert!(f.list_shares_for_sale(alice(), 1, 50, 10).is_ok());
    let listing = f.get_listing(alice(), 1).unwrap();
    assert_eq!(listing.shares, 50);
    assert!(f.cancel_listing(alice(), 1).is_ok());
    assert!(f.get_listing(alice(), 1).is_none());
}

#[test]
fn test_list_insufficient_shares() {
    let mut f = setup();
    f.mint_shares(alice(), 1, 10);
    assert_eq!(f.list_shares_for_sale(alice(), 1, 50, 10), Err(FractionalError::InsufficientShares));
}

#[test]
fn test_redeem_shares() {
    let mut f = setup();
    f.mint_shares(alice(), 1, 100);
    f.set_last_price(1, 5);
    let payout = f.redeem_shares(alice(), 1, 20).unwrap();
    assert_eq!(payout, 100);
    assert_eq!(f.balance_of(alice(), 1), 80);
}

#[test]
fn test_redeem_insufficient() {
    let mut f = setup();
    f.mint_shares(alice(), 1, 10);
    assert_eq!(f.redeem_shares(alice(), 1, 50), Err(FractionalError::InsufficientShares));
}

#[test]
fn test_aggregate_portfolio() {
    let f = setup();
    let items = vec![
        PortfolioItem { token_id: 1, shares: 10, price_per_share: 5 },
        PortfolioItem { token_id: 2, shares: 20, price_per_share: 3 },
    ];
    let agg = f.aggregate_portfolio(items);
    assert_eq!(agg.total_value, 110);
    assert_eq!(agg.positions.len(), 2);
}

#[test]
fn test_buy_shares_insufficient_payment() {
    let mut f = setup();
    f.mint_shares(alice(), 1, 100);
    f.list_shares_for_sale(alice(), 1, 50, 10).unwrap();
    assert_eq!(f.buy_shares(bob(), 0, alice(), 1, 10), Err(FractionalError::InsufficientPayment));
}

#[test]
fn buying_listed_shares_moves_them_and_pays_the_seller() {
    let mut f = setup();
    f.mint_shares(alice(), 1, 100);
    f.list_shares_for_sale(alice(), 1, 50, 10).unwrap();
    assert!(f.buy_shares(bob(), 100, alice(), 1, 10).is_ok());
    assert_eq!(f.balance_of(bob(), 1), 10);
    assert_eq!(f.balance_of(alice(), 1), 90);
    assert_eq!(f.get_listing(alice(), 1).unwrap().shares, 40);
    assert!(f.pending_payouts().contains(&(alice(), 100)));
}

#[test]
fn test_add_liquidity_creates_pool() {
    let mut f = setup();
    f.mint_shares(alice(), 1, 1000);
    let lp = f.add_liquidity(alice(), 500, 1, 100, 0).unwrap();
    assert!(lp > 0);
    let pool = f.get_pool(1).unwrap();
    assert_eq!(pool.share_reserve, 100);
    assert_eq!(pool.value_reserve, 500);
    assert_eq!(pool.lp_supply, lp);
    assert_eq!(f.lp_balance_of(alice(), 1), lp);
    assert_eq!(f.balance_of(alice(), 1), 900);
}

#[test]
fn test_add_liquidity_updates_spot_price() {
    let mut f = setup();
    f.mint_shares(alice(), 1, 1000);
    f.add_liquidity(alice(), 2000, 1, 100, 0).unwrap();
    assert_eq!(f.get_spot_price(1).unwrap(), 20);
    assert_eq!(f.get_last_price(1), Some(20));
}

#[test]
fn test_add_liquidity_insufficient_shares() {
    let mut f = setup();
    f.mint_shares(alice(), 1, 10);
    assert_eq!(f.add_liquidity(alice(), 500, 1, 100, 0), Err(FractionalError::InsufficientShares));
}

#[test]
fn test_add_liquidity_slippage_check() {
    let mut f = setup();
    f.mint_shares(alice(), 1, 1000);
    assert_eq!(f.add_liquidity(alice(), 100, 1, 100, 101), Err(FractionalError::SlippageExceeded));
}

#[test]
fn test_remove_liquidity() {
    let mut f = setup();
    f.mint_shares(alice(), 1, 1000);
    let lp = f.add_liquidity(alice(), 1000, 1, 200, 0).unwrap();
    let (shares_out, value_out) = f.remove_liquidity(alice(), 1, lp, 0, 0).unwrap();
    assert_eq!(shares_out, 200);
    assert_eq!(value_out, 1000);
    let pool = f.get_pool(1).unwrap();
    assert_eq!(pool.share_reserve, 0);
    assert_eq!(pool.value_reserve, 0);
    assert_eq!(f.balance_of(alice(), 1), 1000);
}

#[test]
fn test_remove_liquidity_insufficient_lp() {
    let mut f = setup();
    f.mint_shares(alice(), 1, 1000);
    let lp = f.add_liquidity(alice(), 500, 1, 100, 0).unwrap();
    assert_eq!(f.remove_liquidity(alice(), 1, lp + 1, 0, 0), Err(FractionalError::InsufficientLpShares));
}

#[test]
fn test_swap_shares_for_value() {
    let mut f = setup();
    f.mint_shares(alice(), 1, 1000);
    f.add_liquidity(alice(), 10_000, 1, 100, 0).unwrap();
    let value_out = f.swap_shares_for_value(alice(), 1, 10, 0).unwrap();
    assert!(value_out > 0);
    let new_spot = f.get_spot_price(1).unwrap();
    assert!(new_spot < 100);
}

#[test]
fn swap_output_follows_the_constant_product_with_fee() {
    let mut f = setup();
    f.mint_shares(alice(), 1, 1000);
    f.add_liquidity(alice(), 10_000, 1, 100, 0).unwrap();
    let value_out = f.swap_shares_for_value(alice(), 1, 10, 0).unwrap();
    // 10 shares after the 0.3% fee is 9.97; 10_000 * 9.97 / 109.97 rounds down to 906.
    assert_eq!(value_out, 906);
    let pool = f.get_pool(1).unwrap();
    assert_eq!(pool.share_reserve, 110);
    assert_eq!(pool.value_reserve, 10_000 - 906);
}

#[test]
fn test_swap_no_pool() {
    let mut f = setup();
    f.mint_shares(alice(), 1, 100);
    assert_eq!(f.swap_shares_for_value(alice(), 1, 10, 0), Err(FractionalError::PoolNotFound));
}

#[test]
fn test_swap_slippage_check() {
    let mut f = setup();
    f.mint_shares(alice(), 1, 1000);
    f.add_liquidity(alice(), 10_000, 1, 100, 0).unwrap();
    assert_eq!(f.swap_shares_for_value(alice(), 1, 10, 10_000), Err(FractionalError::SlippageExceeded));
}

#[test]
fn test_get_spot_price_no_pool() {
    let f = setup();
    assert_eq!(f.get_spot_price(99), Err(FractionalError::PoolNotFound));
}

#[test]
fn test_isqrt() {
    assert_eq!(Fractional::isqrt(0), 0);
    assert_eq!(Fractional::isqrt(1), 1);
    assert_eq!(Fractional::isqrt(4), 2);
    assert_eq!(Fractional::isqrt(9), 3);
    assert_eq!(Fractional::isqrt(10_000), 100);
    assert_eq!(Fractional::isqrt(99), 9);
}

#[test]
fn test_create_dutch_auction_succeeds() {
    let mut f = setup();
    f.mint_shares(alice(), 1, 100);
    let auction_id = f.create_dutch_auction(alice(), 0, 1, 50, 1000, 500, 1000).unwrap();
    assert_eq!(auction_id, 0);
    let auction = f.get_dutch_auction(0).unwrap();
    assert_eq!(auction.seller, alice());
    assert_eq!(auction.token_id, 1);
    assert_eq!(auction.shares, 50);
    assert_eq!(auction.start_price, 1000);
    assert_eq!(auction.end_price, 500);
    assert_eq!(auction.duration, 1000);
    assert!(!auction.has_bids);
}

#[test]
fn test_create_dutch_auction_insufficient_shares() {
    let mut f = setup();
    f.mint_shares(alice(), 1, 10);
    assert_eq!(
        f.create_dutch_auction(alice(), 0, 1, 50, 1000, 500, 1000),
        Err(FractionalError::InsufficientShares)
    );
}

#[test]
fn test_create_dutch_auction_zero_shares() {
    let mut f = setup();
    f.mint_shares(alice(), 1, 100);
    assert_eq!(f.create_dutch_auction(alice(), 0, 1, 0, 1000, 500, 1000), Err(FractionalError::ZeroAmount));
}

#[test]
fn test_create_dutch_auction_zero_price() {
    let mut f = setup();
    f.mint_shares(alice(), 1, 100);
    assert_eq!(f.create_dutch_auction(alice(), 0, 1, 50, 0, 500, 1000), Err(FractionalError::ZeroAmount));
}

#[test]
fn test_create_dutch_auction_zero_duration() {
    let mut f = setup();
    f.mint_shares(alice(), 1, 100);
    assert_eq!(f.create_dutch_auction(alice(), 0, 1, 50, 1000, 500, 0), Err(FractionalError::ZeroAmount));
}

#[test]
fn test_dutch_auction_price_at_start() {
    let mut f = setup();
    f.mint_shares(alice(), 1, 100);
    f.create_dutch_auction(alice(), 0, 1, 50, 1000, 500, 1000).unwrap();
    assert_eq!(f.get_dutch_auction_price(0, 0).unwrap(), 1000);
}

#[test]
fn test_dutch_auction_price_at_end() {
    let mut f = setup();
    f.mint_shares(alice(), 1, 100);
    f.create_dutch_auction(alice(), 0, 1, 50, 1000, 500, 1000).unwrap();
    assert_eq!(f.get_dutch_auction_price(1100, 0).unwrap(), 500);
}

#[test]
fn test_dutch_auction_price_halfway() {
    let mut f = setup();
    f.mint_shares(alice(), 1, 100);
    f.create_dutch_auction(alice(), 0, 1, 50, 1000, 500, 1000).unwrap();
    assert_eq!(f.get_dutch_auction_price(500, 0).unwrap(), 750);
}

#[test]
fn test_bid_dutch_auction_succeeds() {
    let mut f = setup();
    f.mint_shares(alice(), 1, 100);
    f.create_dutch_auction(alice(), 0, 1, 50, 1000, 500, 1000).unwrap();
    assert!(f.bid_dutch_auction(bob(), 50_000, 0, 0).is_ok());
    assert_eq!(f.balance_of(bob(), 1), 50);
    assert_eq!(f.balance_of(alice(), 1), 50);
    assert!(f.get_dutch_auction(0).unwrap().has_bids);
}

#[test]
fn test_bid_dutch_auction_insufficient_payment() {
    let mut f = setup();
    f.mint_shares(alice(), 1, 100);
    f.create_dutch_auction(alice(), 0, 1, 50, 1000, 500, 1000).unwrap();
    assert_eq!(f.bid_dutch_auction(bob(), 1_000, 0, 0), Err(FractionalError::InsufficientPayment));
}

#[test]
fn test_bid_dutch_auction_after_first_bid_fails() {
    let mut f = setup();
    f.mint_shares(alice(), 1, 100);
    f.create_dutch_auction(alice(), 0, 1, 50, 1000, 500, 1000).unwrap();
    assert!(f.bid_dutch_auction(bob(), 50_000, 0, 0).is_ok());
    assert_eq!(f.bid_dutch_auction(charlie(), 50_000, 0, 0), Err(FractionalError::AuctionAlreadyBid));
}

#[test]
fn test_bid_dutch_auction_nonexistent() {
    let mut f = setup();
    assert_eq!(f.bid_dutch_auction(bob(), 50_000, 0, 999), Err(FractionalError::AuctionNotFound));
}

#[test]
fn test_bid_dutch_auction_with_descending_price() {
    let mut f = setup();
    f.mint_shares(alice(), 1, 100);
    f.create_dutch_auction(alice(), 0, 1, 50, 1000, 500, 1000).unwrap();
    assert_eq!(f.get_dutch_auction_price(500, 0).unwrap(), 750);
    assert!(f.bid_dutch_auction(bob(), 37_500, 500, 0).is_ok());
    assert_eq!(f.balance_of(bob(), 1), 50);
}

#[test]
fn test_cancel_dutch_auction_succeeds() {
    let mut f = setup();
    f.mint_shares(alice(), 1, 100);
    let auction_id = f.create_dutch_auction(alice(), 0, 1, 50, 1000, 500, 1000).unwrap();
    assert!(f.cancel_dutch_auction(alice(), auction_id).is_ok());
    assert!(f.get_dutch_auction(auction_id).is_none());
}

#[test]
fn test_cancel_dutch_auction_unauthorized() {
    let mut f = setup();
    f.mint_shares(alice(), 1, 100);
    let auction_id = f.create_dutch_auction(alice(), 0, 1, 50, 1000, 500, 1000).unwrap();
    assert_eq!(f.cancel_dutch_auction(bob(), auction_id), Err(FractionalError::Unauthorized));
}

#[test]
fn test_cancel_dutch_auction_after_bid_fails() {
    let mut f = setup();
    f.mint_shares(alice(), 1, 100);
    let auction_id = f.create_dutch_auction(alice(), 0, 1, 50, 1000, 500, 1000).unwrap();
    f.bid_dutch_auction(bob(), 50_000, 0, auction_id).unwrap();
    assert_eq!(f.cancel_dutch_auction(alice(), auction_id), Err(FractionalError::AuctionAlreadyBid));
}

#[test]
fn test_cancel_dutch_auction_nonexistent() {
    let mut f = setup();
    assert_eq!(f.cancel_dutch_auction(alice(), 999), Err(FractionalError::AuctionNotFound));
}

#[test]
fn test_multiple_dutch_auctions() {
    let mut f = setup();
    f.mint_shares(alice(), 1, 200);
    let auction_id_1 = f.create_dutch_auction(alice(), 0, 1, 50, 1000, 500, 1000).unwrap();
    let auction_id_2 = f.create_dutch_auction(alice(), 0, 1, 100, 2000, 1000, 500).unwrap();
    assert_eq!(auction_id_1, 0);
    assert_eq!(auction_id_2, 1);
    assert_eq!(f.get_dutch_auction(0).unwrap().shares, 50);
    assert_eq!(f.get_dutch_auction(1).unwrap().shares, 100);
}

#[test]
fn test_reentrant_buy_shares_returns_error() {
    let mut f = setup();
    f.mint_shares(alice(), 1, 100);
    f.list_shares_for_sale(alice(), 1, 50, 10).unwrap();
    f.reentrancy_guard.enter().expect("first lock should succeed");
    assert_eq!(f.buy_shares(bob(), 100, alice(), 1, 10), Err(FractionalError::ReentrantCall));
    f.reentrancy_guard.exit();
}

#[test]
fn test_reentrant_swap_shares_for_value_returns_error() {
    let mut f = setup();
    f.mint_shares(alice(), 1, 1000);
    f.add_liquidity(alice(), 10_000, 1, 100, 0).unwrap();
    f.reentrancy_guard.enter().expect("first lock should succeed");
    assert_eq!(f.swap_shares_for_value(alice(), 1, 10, 0), Err(FractionalError::ReentrantCall));
    f.reentrancy_guard.exit();
}

#[test]
fn test_reentrant_redeem_shares_returns_error() {
    let mut f = setup();
    f.mint_shares(alice(), 1, 100);
    f.set_last_price(1, 5);
    f.reentrancy_guard.enter().expect("first lock should succeed");
    assert_eq!(f.redeem_shares(alice(), 1, 10), Err(FractionalError::ReentrantCall));
    f.reentrancy_guard.exit();
}

#[test]
fn test_reentrant_add_liquidity_returns_error() {
    let mut f = setup();
    f.mint_shares(alice(), 1, 1000);
    f.reentrancy_guard.enter().expect("first lock should succeed");
    assert_eq!(f.add_liquidity(alice(), 500, 1, 100, 0), Err(FractionalError::ReentrantCall));
    f.reentrancy_guard.exit();
}

#[test]
fn test_reentrant_remove_liquidity_returns_error() {
    let mut f = setup();
    f.mint_shares(alice(), 1, 1000);
    let lp = f.add_liquidity(alice(), 1000, 1, 200, 0).unwrap();
    f.reentrancy_guard.enter().expect("first lock should succeed");
    assert_eq!(f.remove_liquidity(alice(), 1, lp, 0, 0), Err(FractionalError::ReentrantCall));
    f.reentrancy_guard.exit();
}

#[test]
fn test_guard_releases_after_successful_call() {
    let mut f = setup();
    f.mint_shares(alice(), 1, 200);
    f.set_last_price(1, 5);
    assert_eq!(f.redeem_shares(alice(), 1, 50).unwrap(), 250);
    assert_eq!(f.redeem_shares(alice(), 1, 50).unwrap(), 250);
    assert!(!f.reentrancy_guard.is_locked());
}

#[test]
fn test_constructor_sets_caller_as_admin() {
    let contract = setup();
    assert_eq!(contract.get_admin(), alice());
}

#[test]
fn test_admin_can_request_rotation() {
    let mut contract = setup();
    assert!(contract.request_admin_rotation(alice(), 0, bob()).is_ok());
    let req = contract.get_pending_admin_rotation().unwrap();
    assert_eq!(req.old_account, alice());
    assert_eq!(req.new_account, bob());
}

#[test]
fn test_non_admin_cannot_request_rotation() {
    let mut contract = setup();
    assert_eq!(contract.request_admin_rotation(bob(), 0, charlie()), Err(FractionalError::Unauthorized));
}

#[test]
fn test_rotation_cannot_be_confirmed_before_cooldown() {
    let mut contract = setup();
    contract.request_admin_rotation(alice(), 0, bob()).unwrap();
    assert_eq!(contract.confirm_admin_rotation(bob(), 0), Err(FractionalError::KeyRotationCooldown));
}

#[test]
fn rotation_confirmed_after_cooldown_hands_over_admin() {
    let mut contract = setup();
    contract.request_admin_rotation(alice(), 0, bob()).unwrap();
    assert!(contract.confirm_admin_rotation(bob(), 14_400).is_ok());
    assert_eq!(contract.get_admin(), bob());
    assert!(contract.get_pending_admin_rotation().is_none());
}

#[test]
fn test_old_admin_can_cancel_rotation() {
    let mut contract = setup();
    contract.request_admin_rotation(alice(), 0, bob()).unwrap();
    assert!(contract.cancel_admin_rotation(alice()).is_ok());
    assert!(contract.get_pending_admin_rotation().is_none());
}

#[test]
fn test_new_admin_can_cancel_rotation() {
    let mut contract = setup();
    contract.request_admin_rotation(alice(), 0, bob()).unwrap();
    assert!(contract.cancel_admin_rotation(bob()).is_ok());
}

#[test]
fn test_unrelated_cannot_cancel() {
    let mut contract = setup();
    contract.request_admin_rotation(alice(), 0, bob()).unwrap();
    assert_eq!(contract.cancel_admin_rotation(charlie()), Err(FractionalError::RotationUnauthorized));
}

#[test]
fn test_duplicate_request_fails() {
    let mut contract = setup();
    contract.request_admin_rotation(alice(), 0, bob()).unwrap();
    assert_eq!(contract.request_admin_rotation(alice(), 0, charlie()), Err(FractionalError::KeyRotationCooldown));
}

#[test]
fn tax_summary_totals_entries() {
    let f = setup();
    let r = f.summarize_tax(vec![(1, 10), (2, 5)], vec![(1, 100)]);
    assert_eq!(r.total_dividends, 15);
    assert_eq!(r.total_proceeds, 100);
    assert_eq!(r.transactions, 3);
}
