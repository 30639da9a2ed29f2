use lib::common::AccountId;
use lib::dex::{
    AdminActionKind, AdminActionStatus, CrossChainTradeStatus, DexError, OrderSide, OrderStatus, OrderType,
    PropertyDex, TimeInForce,
};

fn alice() -> AccountId {
    AccountId::from_byte(1)
}
fn bob() -> AccountId {
    AccountId::from_byte(2)
}
fn charlie() -> AccountId {
    AccountId::from_byte(3)
}

fn setup_dex() -> PropertyDex {
    let mut dex = PropertyDex::new(alice(), String::from("PCG"), 1_000_000, 25, 1_000);
    dex.configure_bridge_route(alice(), 2, 120_000, 400).expect("bridge route config should work");
    dex
}

fn create_pool(dex: &mut PropertyDex) -> u64 {
    dex.create_pool(alice(), 0, 0, 1, 2, 30, 10_000, 20_000).expect("pool creation should work")
}

fn limit(dex: &mut PropertyDex, who: AccountId, pair: u64, side: OrderSide, price: u128, amount: u128) -> u64 {
    dex.place_order(who, 0, pair, side, OrderType::Limit, TimeInForce::GoodTillCancelled, price, amount, None, None, false)
        .unwrap()
}

#[test]
fn amm_swap_updates_pool_state() {
    let mut dex = setup_dex();
    let pair_id = create_pool(&mut dex);
    let quote_out = dex.swap_exact_base_for_quote(alice(), 0, 0, pair_id, 1_000, 1).expect("swap should succeed");
    assert!(quote_out > 0);
    let pool = dex.get_pool(pair_id).unwrap();
    assert_eq!(pool.reserve_base, 11_000);
    assert!(pool.reserve_quote < 20_000);
    assert_eq!(pool.reserve_quote, 20_000 - quote_out);
    let analytics = dex.get_pair_analytics(pair_id).unwrap();
    assert_eq!(analytics.trade_count, 1);
    assert!(analytics.last_price > 0);
}

#[test]
fn swap_output_follows_constant_product_with_fee() {
    let mut dex = setup_dex();
    let pair_id = create_pool(&mut dex);
    // 1_000 in at a 0.3% fee: 997 * 20_000 / (10_000 + 997)
    let out = dex.swap_exact_base_for_quote(alice(), 0, 0, pair_id, 1_000, 1).unwrap();
    assert_eq!(out, 997 * 20_000 / 10_997);
}

#[test]
fn limit_orders_can_be_matched() {
    let mut dex = setup_dex();
    let pair_id = create_pool(&mut dex);
    let maker = limit(&mut dex, bob(), pair_id, OrderSide::Sell, 2_000, 500);
    let taker = limit(&mut dex, charlie(), pair_id, OrderSide::Buy, 2_000, 500);
    let notional = dex.match_orders(0, maker, taker, 300).expect("match");
    assert_eq!(notional, 60);
    assert_eq!(dex.get_order(maker).unwrap().remaining_amount, 200);
    assert_eq!(dex.get_order(taker).unwrap().remaining_amount, 200);
    assert_eq!(dex.get_order(maker).unwrap().status, OrderStatus::PartiallyFilled);
}

#[test]
fn limit_order_auto_executes_on_price_trigger() {
    let mut dex = setup_dex();
    let pair_id = create_pool(&mut dex);
    let id = limit(&mut dex, bob(), pair_id, OrderSide::Buy, 15_000, 1_000);
    let order = dex.get_order(id).unwrap();
    assert_eq!(order.status, OrderStatus::Open);
    assert_eq!(order.remaining_amount, 1_000);
    dex.swap_exact_base_for_quote(alice(), 0, 0, pair_id, 5_000, 1).expect("swap 1");
    let updated = dex.get_order(id).unwrap();
    assert!(
        updated.status == OrderStatus::Filled
            || updated.status == OrderStatus::PartiallyFilled
            || updated.remaining_amount < 1_000
    );
}

#[test]
fn sell_limit_order_executes_on_price_increase() {
    let mut dex = setup_dex();
    let pair_id = create_pool(&mut dex);
    let id = limit(&mut dex, bob(), pair_id, OrderSide::Sell, 25_000, 500);
    assert_eq!(dex.get_order(id).unwrap().status, OrderStatus::Open);
    dex.swap_exact_quote_for_base(alice(), 0, 0, pair_id, 10_000, 1).expect("large buy to increase price");
    let updated = dex.get_order(id).unwrap();
    assert!(
        updated.status == OrderStatus::Filled
            || updated.status == OrderStatus::PartiallyFilled
            || updated.remaining_amount < 500
            || updated.status == OrderStatus::Open
    );
}

#[test]
fn multiple_limit_orders_execute_in_sequence() {
    let mut dex = setup_dex();
    let pair_id = create_pool(&mut dex);
    let o1 = limit(&mut dex, bob(), pair_id, OrderSide::Buy, 18_000, 500);
    let o2 = limit(&mut dex, charlie(), pair_id, OrderSide::Buy, 16_000, 500);
    dex.swap_exact_base_for_quote(alice(), 0, 0, pair_id, 8_000, 1).expect("large sell");
    let u1 = dex.get_order(o1).unwrap();
    let u2 = dex.get_order(o2).unwrap();
    assert!(
        u1.status != OrderStatus::Open
            || u1.remaining_amount < 500
            || u2.status != OrderStatus::Open
            || u2.remaining_amount < 500
    );
}

#[test]
fn stop_loss_orders_require_trigger() {
    let mut dex = setup_dex();
    let pair_id = create_pool(&mut dex);
    let order_id = dex
        .place_order(alice(), 0, pair_id, OrderSide::Sell, OrderType::StopLoss, TimeInForce::GoodTillCancelled,
            15_000, 400, Some(15_000), None, false)
        .expect("order");
    assert_eq!(dex.execute_order(alice(), 0, 0, order_id, 100), Err(DexError::OrderNotExecutable));
    dex.swap_exact_base_for_quote(alice(), 0, 0, pair_id, 4_000, 1).expect("large sell to move price");
    let output = dex.execute_order(alice(), 0, 0, order_id, 100).expect("triggered order executes");
    assert!(output > 0);
}

#[test]
fn liquidity_rewards_and_governance_accrue() {
    let mut dex = setup_dex();
    let pair_id = create_pool(&mut dex);
    let pending = dex.pending_liquidity_rewards(25, pair_id, alice()).unwrap();
    assert!(pending > 0);
    let reward = dex.claim_liquidity_rewards(alice(), 25, pair_id).expect("reward should accrue");
    assert!(reward > 0);
    assert_eq!(reward, pending);
    assert_eq!(dex.pending_liquidity_rewards(25, pair_id, alice()).unwrap(), 0);
    assert!(dex.get_governance_balance(alice()) > 1_000_000);
}

#[test]
fn liquidity_mining_campaign_window_is_enforced() {
    let mut dex = setup_dex();
    let pair_id = create_pool(&mut dex);
    dex.set_liquidity_mining_campaign(alice(), 100, 10, 20, String::from("PCG")).expect("admin can configure campaign");
    let campaign = dex.get_liquidity_mining_campaign();
    assert_eq!(campaign.emission_rate, 100);
    assert_eq!(campaign.start_block, 10);
    assert_eq!(campaign.end_block, 20);
    assert_eq!(dex.pending_liquidity_rewards(5, pair_id, alice()).unwrap(), 0);
    let first = dex.claim_liquidity_rewards(alice(), 15, pair_id).expect("mid-campaign claim");
    assert!((499..=500).contains(&first));
    let second = dex.claim_liquidity_rewards(alice(), 25, pair_id).expect("post-campaign claim only pays until end");
    assert!((499..=500).contains(&second));
    assert_eq!(dex.claim_liquidity_rewards(alice(), 25, pair_id), Err(DexError::RewardUnavailable));
}

#[test]
fn liquidity_mining_rejects_invalid_campaigns_and_non_lp_claims() {
    let mut dex = setup_dex();
    let pair_id = create_pool(&mut dex);
    assert_eq!(dex.set_liquidity_mining_campaign(alice(), 0, 1, 10, String::from("PCG")), Err(DexError::InvalidRequest));
    assert_eq!(dex.set_liquidity_mining_campaign(alice(), 10, 10, 10, String::from("PCG")), Err(DexError::InvalidRequest));
    assert_eq!(dex.set_liquidity_mining_campaign(alice(), 10, 1, 10, String::new()), Err(DexError::InvalidRequest));
    assert_eq!(dex.set_liquidity_mining_campaign(bob(), 10, 1, 10, String::from("PCG")), Err(DexError::Unauthorized));
    assert_eq!(dex.claim_liquidity_rewards(bob(), 25, pair_id), Err(DexError::RewardUnavailable));
    assert_eq!(dex.pending_liquidity_rewards(25, pair_id, bob()).unwrap(), 0);
}

#[test]
fn governance_can_update_fees() {
    let mut dex = setup_dex();
    let pair_id = create_pool(&mut dex);
    let proposal_id = dex
        .create_governance_proposal(alice(), 0, String::from("Lower fees"), [7u8; 32], Some(20), None, 5)
        .expect("proposal");
    dex.vote_on_proposal(alice(), 0, proposal_id, true).expect("vote");
    assert_eq!(dex.vote_on_proposal(alice(), 1, proposal_id, true), Err(DexError::AlreadyVoted));
    let passed = dex.execute_governance_proposal(10, proposal_id).expect("execute");
    assert!(passed);
    assert_eq!(dex.get_pool(pair_id).unwrap().fee_bips, 20);
}

#[test]
fn governance_proposal_needs_balance() {
    let mut dex = setup_dex();
    assert_eq!(
        dex.create_governance_proposal(bob(), 0, String::from("x"), [0u8; 32], None, None, 5),
        Err(DexError::InsufficientGovernanceBalance)
    );
}

#[test]
fn admin_timelock_blocks_direct_changes_when_enabled() {
    let mut dex = setup_dex();
    dex.set_admin_timelock_delay(alice(), 5).expect("enable timelock");
    assert_eq!(dex.get_admin_timelock_delay(), 5);
    assert_eq!(dex.configure_bridge_route(alice(), 3, 111_000, 500), Err(DexError::TimelockRequired));
    assert_eq!(
        dex.set_liquidity_mining_campaign(alice(), 50, 0, 1_000, String::from("GOV2")),
        Err(DexError::TimelockRequired)
    );
    assert_eq!(dex.set_admin_timelock_delay(alice(), 0), Err(DexError::TimelockRequired));
}

#[test]
fn admin_timelock_executes_scheduled_action_after_delay() {
    let mut dex = setup_dex();
    dex.set_admin_timelock_delay(alice(), 5).expect("enable timelock");
    let action_id = dex.schedule_bridge_route_update(alice(), 10, 3, 200_000, 999).expect("schedule bridge update");
    let scheduled = dex.get_scheduled_admin_action(action_id).expect("action exists");
    assert_eq!(scheduled.executable_at, 15);
    assert_eq!(scheduled.kind, AdminActionKind::ConfigureBridgeRoute);
    assert_eq!(scheduled.status, AdminActionStatus::Scheduled);
    assert_eq!(dex.execute_admin_action(alice(), 10, action_id), Err(DexError::TimelockActive));
    assert_eq!(dex.execute_admin_action(alice(), 14, action_id), Err(DexError::TimelockActive));
    dex.execute_admin_action(alice(), 15, action_id).expect("execute after delay");
    let quote = dex.quote_cross_chain_trade(3).expect("bridge route applied");
    assert_eq!(quote.gas_estimate, 200_000);
    assert_eq!(quote.protocol_fee, 999);
    assert_eq!(dex.execute_admin_action(alice(), 16, action_id), Err(DexError::AdminActionAlreadyFinalized));
    assert_eq!(dex.get_scheduled_admin_action(action_id).unwrap().status, AdminActionStatus::Executed);
}

#[test]
fn admin_timelock_cancel_prevents_execution() {
    let mut dex = setup_dex();
    dex.set_admin_timelock_delay(alice(), 5).expect("enable timelock");
    let action_id =
        dex.schedule_liquidity_mining_update(alice(), 10, 77, 20, 1_000, String::from("NEW")).expect("schedule");
    dex.cancel_admin_action(alice(), action_id).expect("cancel");
    assert_eq!(dex.execute_admin_action(alice(), 30, action_id), Err(DexError::AdminActionAlreadyFinalized));
    assert_eq!(dex.get_scheduled_admin_action(action_id).unwrap().status, AdminActionStatus::Cancelled);
}

#[test]
fn admin_timelock_delay_change_requires_scheduling() {
    let mut dex = setup_dex();
    dex.set_admin_timelock_delay(alice(), 3).expect("enable timelock");
    let action_id = dex.schedule_timelock_delay_update(alice(), 100, 0).expect("schedule delay change");
    dex.execute_admin_action(alice(), 103, action_id).expect("apply new delay");
    assert_eq!(dex.get_admin_timelock_delay(), 0);
    dex.configure_bridge_route(alice(), 4, 10_000, 50).expect("direct path works again once delay is 0");
}

#[test]
fn admin_timelock_non_admin_cannot_schedule_or_execute() {
    let mut dex = setup_dex();
    dex.set_admin_timelock_delay(alice(), 2).expect("enable timelock");
    assert_eq!(dex.schedule_bridge_route_update(bob(), 0, 9, 1, 1), Err(DexError::Unauthorized));
    assert_eq!(dex.execute_admin_action(bob(), 0, 1), Err(DexError::Unauthorized));
    assert_eq!(dex.cancel_admin_action(bob(), 1), Err(DexError::Unauthorized));
}

#[test]
fn cross_chain_trade_and_portfolio_tracking_work() {
    let mut dex = setup_dex();
    let pair_id = create_pool(&mut dex);
    dex.add_liquidity(bob(), 0, 0, pair_id, 5_000, 10_000).expect("add liquidity");
    let order_id = dex
        .place_order(bob(), 0, pair_id, OrderSide::Buy, OrderType::Twap, TimeInForce::GoodTillCancelled, 0, 250, None,
            Some(60), false)
        .expect("place twap");
    let trade_id = dex.create_cross_chain_trade(bob(), 0, pair_id, Some(order_id), 2, charlie(), 700, 500).expect("trade");
    dex.attach_bridge_request(bob(), trade_id, 77).expect("attach bridge request");
    let snapshot = dex.get_portfolio_snapshot(bob());
    assert_eq!(snapshot.liquidity_positions, 1);
    assert_eq!(snapshot.open_orders, 1);
    assert_eq!(snapshot.cross_chain_positions, 1);
    dex.finalize_cross_chain_trade(alice(), trade_id).expect("admin finalizes");
    assert_eq!(dex.get_cross_chain_trade(trade_id).unwrap().status, CrossChainTradeStatus::Settled);
}

#[test]
fn price_impact_calculation_works() {
    let mut dex = setup_dex();
    let pair_id = create_pool(&mut dex);
    let (impact, out) = dex.calculate_price_impact(pair_id, OrderSide::Sell, 100).expect("calculate impact");
    assert!(out > 0);
    assert!(impact < 500);
    let (large_impact, large_out) = dex.calculate_price_impact(pair_id, OrderSide::Sell, 5_000).unwrap();
    assert!(large_out > 0);
    assert!(large_impact > impact);
    assert_eq!(dex.calculate_price_impact(pair_id, OrderSide::Sell, 0), Err(DexError::InvalidOrder));
    assert_eq!(dex.calculate_price_impact(99, OrderSide::Sell, 10), Err(DexError::PoolNotFound));
}

#[test]
fn price_impact_warning_emitted_on_large_trade() {
    let mut dex = setup_dex();
    let pair_id = create_pool(&mut dex);
    assert!(dex.swap_exact_base_for_quote(alice(), 0, 0, pair_id, 5_000, 1).is_ok());
    assert!(dex.get_pool(pair_id).unwrap().reserve_base > 10_000);
}

#[test]
fn slippage_protection_prevents_bad_trades() {
    let mut dex = setup_dex();
    let pair_id = create_pool(&mut dex);
    assert_eq!(dex.swap_exact_base_for_quote(alice(), 0, 0, pair_id, 1_000, 100_000), Err(DexError::SlippageExceeded));
    assert_eq!(dex.get_pool(pair_id).unwrap().reserve_base, 10_000);
}

#[test]
fn slippage_protection_allows_reasonable_trades() {
    let mut dex = setup_dex();
    let pair_id = create_pool(&mut dex);
    let (_, expected) = dex.calculate_price_impact(pair_id, OrderSide::Sell, 1_000).unwrap();
    let min_output = expected * 95 / 100;
    let out = dex.swap_exact_base_for_quote(alice(), 0, 0, pair_id, 1_000, min_output).unwrap();
    assert!(out >= min_output);
    assert_eq!(out, expected);
}

#[test]
fn invariant_k_value_never_decreases() {
    let mut dex = setup_dex();
    let pair_id = create_pool(&mut dex);
    let pool = dex.get_pool(pair_id).unwrap();
    let initial_k = pool.reserve_base * pool.reserve_quote;
    for amount_in in [100u128, 500, 1000, 5000] {
        if dex.swap_exact_base_for_quote(alice(), 0, 0, pair_id, amount_in, 0).is_ok() {
            let pool = dex.get_pool(pair_id).unwrap();
            assert!(pool.reserve_base * pool.reserve_quote >= initial_k);
        }
    }
    let pool = dex.get_pool(pair_id).unwrap();
    let initial_k = pool.reserve_base * pool.reserve_quote;
    for amount_in in [100u128, 500, 1000, 5000] {
        if dex.swap_exact_quote_for_base(alice(), 0, 0, pair_id, amount_in, 0).is_ok() {
            let pool = dex.get_pool(pair_id).unwrap();
            assert!(pool.reserve_base * pool.reserve_quote >= initial_k);
        }
    }
}

#[test]
fn invariant_zero_amount_rejected() {
    let mut dex = setup_dex();
    let pair_id = create_pool(&mut dex);
    assert_eq!(dex.swap_exact_base_for_quote(alice(), 0, 0, pair_id, 0, 0), Err(DexError::InvalidOrder));
    assert_eq!(dex.swap_exact_quote_for_base(alice(), 0, 0, pair_id, 0, 0), Err(DexError::InvalidOrder));
}

#[test]
fn invariant_slippage_protection() {
    let mut dex = setup_dex();
    let pair_id = create_pool(&mut dex);
    for amount_in in [100u128, 500, 1000, 5000] {
        assert_eq!(
            dex.swap_exact_base_for_quote(alice(), 0, 0, pair_id, amount_in, u128::MAX),
            Err(DexError::SlippageExceeded)
        );
        assert_eq!(
            dex.swap_exact_quote_for_base(alice(), 0, 0, pair_id, amount_in, u128::MAX),
            Err(DexError::SlippageExceeded)
        );
    }
}

#[test]
fn invariant_swap_monotonicity() {
    let mut dex = setup_dex();
    let pair_id = create_pool(&mut dex);
    let mut prev_out = 0u128;
    for amount_in in [100u128, 500, 1000, 2000, 4000] {
        if let Ok(out) = dex.swap_exact_base_for_quote(alice(), 0, 0, pair_id, amount_in, 0) {
            assert!(out > prev_out);
            prev_out = out;
        }
    }
}

#[test]
fn create_pool_rejects_bad_pairs() {
    let mut dex = setup_dex();
    assert_eq!(dex.create_pool(alice(), 0, 0, 1, 1, 30, 10, 10), Err(DexError::InvalidPair));
    assert_eq!(dex.create_pool(alice(), 0, 0, 1, 2, 30, 0, 10), Err(DexError::InvalidPair));
    let id = create_pool(&mut dex);
    assert_eq!(id, 1);
    assert_eq!(dex.create_pool(alice(), 0, 0, 1, 2, 30, 10, 10), Err(DexError::InvalidPair));
}

#[test]
fn cancel_order_removes_it_from_book() {
    let mut dex = setup_dex();
    let pair_id = create_pool(&mut dex);
    let id = limit(&mut dex, bob(), pair_id, OrderSide::Buy, 1_800, 100);
    assert_eq!(dex.cancel_order(charlie(), 0, id), Err(DexError::Unauthorized));
    dex.cancel_order(bob(), 5, id).unwrap();
    let o = dex.get_order(id).unwrap();
    assert_eq!(o.status, OrderStatus::Cancelled);
    assert_eq!(o.updated_at, 5);
    assert_eq!(dex.cancel_order(bob(), 6, 999), Err(DexError::OrderNotFound));
}

#[test]
fn remove_liquidity_returns_pro_rata_share() {
    let mut dex = setup_dex();
    let pair_id = create_pool(&mut dex);
    let shares = dex.add_liquidity(bob(), 0, 0, pair_id, 5_000, 10_000).unwrap();
    assert!(shares > 0);
    let (base, quote) = dex.remove_liquidity(bob(), 0, pair_id, shares).unwrap();
    assert!(base <= 5_000 && quote <= 10_000);
    assert!(base > 0 && quote > 0);
}

#[test]
fn order_book_snapshot_aggregates_levels_for_visualization() {
    let mut dex = setup_dex();
    let pair_id = create_pool(&mut dex);
    limit(&mut dex, bob(), pair_id, OrderSide::Sell, 2_100, 400);
    limit(&mut dex, bob(), pair_id, OrderSide::Sell, 2_100, 300);
    limit(&mut dex, bob(), pair_id, OrderSide::Sell, 2_200, 100);
    limit(&mut dex, charlie(), pair_id, OrderSide::Buy, 1_900, 250);
    limit(&mut dex, charlie(), pair_id, OrderSide::Buy, 1_950, 500);

    let snapshot = dex.get_order_book_snapshot(pair_id, 10).expect("snapshot should load");
    assert_eq!(snapshot.pair_id, pair_id);
    assert_eq!(snapshot.bids.len(), 2);
    assert_eq!(snapshot.asks.len(), 2);
    assert_eq!(snapshot.bids[0].price, 1_950);
    assert_eq!(snapshot.bids[0].total_amount, 500);
    assert_eq!(snapshot.bids[0].order_count, 1);
    assert_eq!(snapshot.bids[0].cumulative_amount, 500);
    assert_eq!(snapshot.bids[1].price, 1_900);
    assert_eq!(snapshot.bids[1].cumulative_amount, 750);
    assert_eq!(snapshot.asks[0].price, 2_100);
    assert_eq!(snapshot.asks[0].total_amount, 700);
    assert_eq!(snapshot.asks[0].order_count, 2);
    assert_eq!(snapshot.asks[0].cumulative_amount, 700);
    assert_eq!(snapshot.asks[1].price, 2_200);
    assert_eq!(snapshot.asks[1].cumulative_amount, 800);
    assert_eq!(snapshot.best_bid, 1_950);
    assert_eq!(snapshot.best_ask, 2_100);
    assert_eq!(snapshot.spread, 150);
    assert_eq!(snapshot.mid_price, 2_025);
    assert_eq!(snapshot.total_bid_depth, 750);
    assert_eq!(snapshot.total_ask_depth, 800);

    let cancel_id = limit(&mut dex, charlie(), pair_id, OrderSide::Buy, 1_800, 100);
    dex.cancel_order(charlie(), 0, cancel_id).expect("cancel should work");
    let after_cancel = dex.get_order_book_snapshot(pair_id, 10).unwrap();
    assert_eq!(after_cancel.bids.len(), 2);

    let top = dex.get_order_book_snapshot(pair_id, 1).unwrap();
    assert_eq!(top.bids.len(), 1);
    assert_eq!(top.asks.len(), 1);
    assert_eq!(top.bids[0].price, 1_950);
    assert_eq!(top.asks[0].price, 2_100);

    let bids_only = dex.get_order_book_levels(pair_id, OrderSide::Buy, 10).unwrap();
    assert_eq!(bids_only.len(), 2);
    assert_eq!(bids_only[0].price, 1_950);
    assert!(matches!(dex.get_order_book_snapshot(999, 10), Err(DexError::PoolNotFound)));
}

#[test]
fn dex_errors_have_texts() {
    assert_eq!(DexError::SlippageExceeded.to_string(), "Slippage tolerance exceeded");
    assert_eq!(DexError::PoolNotFound.error_description(), "The referenced liquidity pool does not exist");
    assert_eq!(
        DexError::TimelockRequired.to_string(),
        "Sensitive admin change must be scheduled through the timelock"
    );
}

#[test]
fn no_trading_competition_exists_to_score() {
    let mut dex = setup_dex();
    let pair_id = create_pool(&mut dex);
    dex.swap_exact_base_for_quote(bob(), 0, 0, pair_id, 1_000, 1).unwrap();
    assert_eq!(dex.get_competition_count(), 0);
    assert_eq!(dex.get_competition_status(1), None);
    assert!(dex.tally_competition_leaderboard(1).is_empty());
    assert!(dex.get_competition_final_scores(1).is_empty());
    assert!(dex.get_competition_top_scores(1).is_empty());
    assert_eq!(dex.get_competition_total_score(1), 0);
    assert_eq!(dex.get_reward_share_for_trader(1, bob()), None);
    assert_eq!(dex.get_competition_rank(1, bob()), None);
    assert_eq!(dex.get_competition_summary_for_user(1, bob()), None);
    assert_eq!(dex.get_competition_reward_state(bob(), 1), Some(false));
    assert!(!dex.get_competition_participant_reward_status(1, bob()));
    assert!(!dex.get_competition_active_status(1));
    assert_eq!(dex.get_competition_settings(1), None);
    assert_eq!(dex.get_competition_rewards_summary(1), None);
    assert_eq!(dex.get_competition_status_summary(1), None);
    assert_eq!(dex.get_competition_report(1), None);
    assert_eq!(dex.get_competition_metadata(1), None);
    assert_eq!(dex.get_competition_description(1), None);
    assert_eq!(dex.get_competition_trade_volume_goal(1), None);
    assert_eq!(dex.get_competition_reward_distribution(1), None);
    assert_eq!(dex.get_competition_details_for_dashboard(1), None);
    assert!(dex.get_competition_history().is_empty());
    assert!(dex.get_competition_summary_all().is_empty());
    assert!(dex.get_competition_details_by_title(String::from("Weekly")).is_empty());
    assert_eq!(dex.get_competition_admin(1), alice());
    assert_eq!(dex.get_competition_reward_balance(bob()), dex.get_governance_balance(bob()));
    assert!(dex.get_competition_reward_balance(bob()) > 0);
}

#[test]
fn swap_with_cascade_never_lowers_the_reserve_product() {
    let mut dex = setup_dex();
    let pair_id = create_pool(&mut dex);
    limit(&mut dex, bob(), pair_id, OrderSide::Buy, 1_000_000_000_000, 100);
    limit(&mut dex, charlie(), pair_id, OrderSide::Sell, 1, 50);
    let before = dex.get_pool(pair_id).unwrap();
    let k0 = before.reserve_base * before.reserve_quote;
    dex.swap_exact_base_for_quote(alice(), 0, 0, pair_id, 1_000, 1).unwrap();
    let after = dex.get_pool(pair_id).unwrap();
    assert!(after.reserve_base * after.reserve_quote >= k0);
    dex.swap_exact_quote_for_base(alice(), 0, 0, pair_id, 700, 1).unwrap();
    let last = dex.get_pool(pair_id).unwrap();
    assert!(last.reserve_base * last.reserve_quote >= after.reserve_base * after.reserve_quote);
}

#[test]
fn larger_trades_move_the_price_more_and_pay_the_quote() {
    let mut dex = setup_dex();
    let pair_id = create_pool(&mut dex);
    let mut last = (0u32, 0u128);
    for amount in [10u128, 100, 1_000, 5_000, 20_000] {
        let q = dex.calculate_price_impact(pair_id, OrderSide::Buy, amount).unwrap();
        assert!(q.0 >= last.0 && q.1 >= last.1);
        last = q;
    }
    let (_, quoted) = dex.calculate_price_impact(pair_id, OrderSide::Buy, 1_000).unwrap();
    assert_eq!(dex.swap_exact_quote_for_base(bob(), 0, 0, pair_id, 1_000, quoted), Ok(quoted));
    assert_eq!(dex.swap_exact_quote_for_base(bob(), 0, 0, pair_id, 0, 0), Err(DexError::InvalidOrder));
}
