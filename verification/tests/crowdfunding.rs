use lib::common::AccountId;
use lib::crowdfunding::discovery::CampaignSelector;
use lib::crowdfunding::search::CampaignFilter;
use lib::crowdfunding::{
    CampaignStatus, CrowdfundingError, MilestoneStatus, ProposalStatus, RealEstateCrowdfunding, RiskRating,
};

fn alice() -> AccountId {
    AccountId::from_byte(1)
}
fn bob() -> AccountId {
    AccountId::from_byte(2)
}
fn charlie() -> AccountId {
    AccountId::from_byte(3)
}

fn setup() -> RealEstateCrowdfunding {
    RealEstateCrowdfunding::new(alice())
}

fn accredited_bob(c: &mut RealEstateCrowdfunding) {
    c.onboard_investor(bob(), "US".into(), false).unwrap();
    c.verify_accreditation(alice(), bob()).unwrap();
}

#[test]
fn test_create_campaign() {
    let mut contract = setup();
    let id = contract.create_campaign(alice(), "Downtown Lofts".into(), 1_000_000).unwrap();
    assert_eq!(id, 1);
    let campaign = contract.get_campaign(1).unwrap();
    assert_eq!(campaign.target_amount, 1_000_000);
    assert_eq!(campaign.title, "Downtown Lofts");
    assert_eq!(campaign.creator, alice());
    assert_eq!(campaign.status, CampaignStatus::Draft);
    assert_eq!(contract.get_campaign_count(), 1);
}

#[test]
fn test_activate_campaign() {
    let mut contract = setup();
    let id = contract.create_campaign(alice(), "Harbor View".into(), 500_000).unwrap();
    assert_eq!(contract.activate_campaign(bob(), id), Err(CrowdfundingError::Unauthorized));
    assert!(contract.activate_campaign(alice(), id).is_ok());
    assert_eq!(contract.get_campaign(id).unwrap().status, CampaignStatus::Active);
}

#[test]
fn test_invest_in_campaign() {
    let mut contract = setup();
    let id = contract.create_campaign(alice(), "Sunset Villas".into(), 100_000).unwrap();
    contract.activate_campaign(alice(), id).unwrap();
    contract.onboard_investor(bob(), "US".into(), false).unwrap();
    contract.verify_accreditation(alice(), bob()).unwrap();
    assert!(contract.is_accredited(bob()));
    assert!(contract.invest(bob(), id, 100_000).is_ok());
    let campaign = contract.get_campaign(id).unwrap();
    assert_eq!(campaign.status, CampaignStatus::Funded);
    assert_eq!(campaign.raised_amount, 100_000);
    assert_eq!(campaign.investor_count, 1);
    assert_eq!(contract.get_investment(id, bob()), 100_000);
    assert_eq!(contract.get_shares(id, bob()), 100);
}

#[test]
fn test_invest_rejected_without_accreditation() {
    let mut contract = setup();
    let id = contract.create_campaign(alice(), "Sunset Villas".into(), 100_000).unwrap();
    contract.activate_campaign(alice(), id).unwrap();
    contract.onboard_investor(bob(), "US".into(), false).unwrap();
    assert_eq!(contract.invest(bob(), id, 50_000), Err(CrowdfundingError::AccreditationNotVerified));
    assert_eq!(contract.get_investment(id, bob()), 0);
}

#[test]
fn invest_needs_onboarding_and_active_campaign() {
    let mut contract = setup();
    let id = contract.create_campaign(alice(), "Sunset Villas".into(), 100_000).unwrap();
    assert_eq!(contract.invest(bob(), id, 1_000), Err(CrowdfundingError::InvestorNotCompliant));
    accredited_bob(&mut contract);
    assert_eq!(contract.invest(bob(), id, 1_000), Err(CrowdfundingError::CampaignNotActive));
    assert_eq!(contract.invest(bob(), 77, 1_000), Err(CrowdfundingError::CampaignNotFound));
}

#[test]
fn test_milestone_workflow() {
    let mut contract = setup();
    let id = contract.create_campaign(alice(), "Park Place".into(), 200_000).unwrap();
    let m = contract.add_milestone(alice(), id, "Foundation".into(), 50_000).unwrap();
    contract.add_oracle(alice(), alice()).unwrap();
    contract.oracle_verify_milestone(alice(), m, [1u8; 32]).unwrap();
    assert!(contract.approve_milestone(alice(), m).is_ok());
    assert!(contract.release_milestone(m).is_ok());
    assert_eq!(contract.get_milestone(m).unwrap().status, MilestoneStatus::Released);
}

#[test]
fn test_release_milestone_requires_oracle_verification() {
    let mut contract = setup();
    let id = contract.create_campaign(alice(), "Park Place".into(), 200_000).unwrap();
    let m = contract.add_milestone(alice(), id, "Foundation".into(), 50_000).unwrap();
    contract.approve_milestone(alice(), m).unwrap();
    assert_eq!(contract.release_milestone(m), Err(CrowdfundingError::OracleVerificationFailed));
}

#[test]
fn release_milestone_requires_approval() {
    let mut contract = setup();
    let id = contract.create_campaign(alice(), "Park Place".into(), 200_000).unwrap();
    let m = contract.add_milestone(alice(), id, "Foundation".into(), 50_000).unwrap();
    contract.oracle_verify_milestone(alice(), m, [1u8; 32]).unwrap();
    assert_eq!(contract.release_milestone(m), Err(CrowdfundingError::MilestoneNotApproved));
    assert_eq!(contract.release_milestone(99), Err(CrowdfundingError::MilestoneNotFound));
}

#[test]
fn test_oracle_verify_milestone() {
    let mut contract = setup();
    let id = contract.create_campaign(alice(), "Park Place".into(), 200_000).unwrap();
    let m = contract.add_milestone(alice(), id, "Foundation".into(), 50_000).unwrap();
    assert!(contract.oracle_verify_milestone(alice(), m, [2u8; 32]).is_ok());
    let milestone = contract.get_milestone(m).unwrap();
    assert!(milestone.oracle_verified);
    assert_eq!(milestone.oracle_data_hash, Some([2u8; 32]));
    // neither the admin nor a registered oracle
    assert_eq!(contract.oracle_verify_milestone(bob(), m, [3u8; 32]), Err(CrowdfundingError::Unauthorized));
}

#[test]
fn test_refund_policy_failed_campaign() {
    let mut contract = setup();
    let id = contract.create_campaign(alice(), "Sunset Villas".into(), 100_000).unwrap();
    contract.activate_campaign(alice(), id).unwrap();
    accredited_bob(&mut contract);
    contract.invest(bob(), id, 40_000).unwrap();
    assert!(contract.fail_campaign(alice(), id).is_ok());
    assert_eq!(contract.claim_refund(bob(), id), Ok(40_000));
    assert!(contract.is_refunded(id, bob()));
}

#[test]
fn test_refund_not_allowed_for_active_campaign() {
    let mut contract = setup();
    let id = contract.create_campaign(alice(), "Sunset Villas".into(), 100_000).unwrap();
    contract.activate_campaign(alice(), id).unwrap();
    accredited_bob(&mut contract);
    contract.invest(bob(), id, 40_000).unwrap();
    assert_eq!(contract.claim_refund(bob(), id), Err(CrowdfundingError::CampaignNotFailed));
}

#[test]
fn test_double_refund_not_allowed() {
    let mut contract = setup();
    let id = contract.create_campaign(alice(), "Sunset Villas".into(), 100_000).unwrap();
    contract.activate_campaign(alice(), id).unwrap();
    accredited_bob(&mut contract);
    contract.invest(bob(), id, 40_000).unwrap();
    contract.fail_campaign(alice(), id).unwrap();
    contract.claim_refund(bob(), id).unwrap();
    assert_eq!(contract.claim_refund(bob(), id), Err(CrowdfundingError::AlreadyRefunded));
}

#[test]
fn refund_without_investment_is_refused() {
    let mut contract = setup();
    let id = contract.create_campaign(alice(), "Sunset Villas".into(), 100_000).unwrap();
    contract.activate_campaign(alice(), id).unwrap();
    contract.fail_campaign(alice(), id).unwrap();
    assert_eq!(contract.claim_refund(charlie(), id), Err(CrowdfundingError::NoInvestmentFound));
}

#[test]
fn test_profit_distribution() {
    let mut contract = setup();
    let id = contract.create_campaign(alice(), "Test".into(), 100_000).unwrap();
    contract.activate_campaign(alice(), id).unwrap();
    contract.onboard_investor(bob(), "US".into(), true).unwrap();
    contract.invest(bob(), id, 60_000).unwrap();
    assert_eq!(contract.distribute_profit(id, 10_000, bob()), 6_000);
    assert_eq!(contract.distribute_profit(id, 10_000, charlie()), 0);
    assert_eq!(contract.distribute_profit(99, 10_000, bob()), 0);
}

#[test]
fn test_governance_voting() {
    let mut contract = setup();
    let id = contract.create_campaign(alice(), "Test".into(), 100_000).unwrap();
    let p = contract.create_proposal(id, "Release funds".into()).unwrap();
    assert!(contract.vote(alice(), p, true).is_ok());
    assert!(contract.vote(bob(), p, true).is_ok());
    assert_eq!(contract.vote(bob(), p, false), Err(CrowdfundingError::AlreadyVoted));
    let proposal = contract.get_proposal(p).unwrap();
    assert_eq!(proposal.votes_for, 2);
    assert_eq!(proposal.votes_against, 0);
    assert_eq!(contract.finalize_proposal(p), Ok(ProposalStatus::Passed));
}

#[test]
fn test_secondary_market() {
    let mut contract = setup();
    let id = contract.create_campaign(alice(), "Test".into(), 100_000).unwrap();
    contract.activate_campaign(alice(), id).unwrap();
    contract.onboard_investor(bob(), "US".into(), true).unwrap();
    contract.invest(bob(), id, 50_000).unwrap();
    assert_eq!(contract.list_shares(bob(), id, 51, 1_000), Err(CrowdfundingError::InsufficientShares));
    let listing = contract.list_shares(bob(), id, 25, 1_000).unwrap();
    assert_eq!(contract.buy_shares(charlie(), listing), Ok(25_000));
    assert_eq!(contract.get_shares(id, bob()), 25);
    assert_eq!(contract.get_shares(id, charlie()), 25);
    assert!(contract.get_listing(listing).is_none());
}

#[test]
fn test_risk_assessment() {
    let mut contract = setup();
    let id = contract.create_campaign(alice(), "Test".into(), 100_000).unwrap();
    assert!(contract.assess_risk(alice(), id, 50, 80, 10).is_ok());
    assert_eq!(contract.get_risk_profile(id).unwrap().rating, RiskRating::Low);
}

#[test]
fn test_campaign_success_metrics_track_funding_and_milestones() {
    let mut contract = setup();
    let id = contract.create_campaign(alice(), "Metrics Campaign".into(), 200_000).unwrap();
    contract.activate_campaign(alice(), id).unwrap();
    contract.onboard_investor(bob(), "US".into(), true).unwrap();
    contract.invest(bob(), id, 50_000).unwrap();
    contract.onboard_investor(charlie(), "CA".into(), true).unwrap();
    contract.invest(charlie(), id, 100_000).unwrap();
    let m = contract.add_milestone(alice(), id, "Permits approved".into(), 40_000).unwrap();
    contract.add_oracle(alice(), alice()).unwrap();
    contract.oracle_verify_milestone(alice(), m, [9u8; 32]).unwrap();
    contract.approve_milestone(alice(), m).unwrap();
    contract.release_milestone(m).unwrap();
    let metrics = contract.get_campaign_success_metrics(id).unwrap();
    assert_eq!(metrics.funding_progress_bps, 7_500);
    assert_eq!(metrics.investor_count, 2);
    assert_eq!(metrics.average_investment, 75_000);
    assert_eq!(metrics.total_milestones, 1);
    assert_eq!(metrics.released_milestones, 1);
    assert_eq!(metrics.released_capital, 40_000);
    assert!(!metrics.is_funded);
}

#[test]
fn test_share_campaign() {
    let mut contract = setup();
    let id = contract.create_campaign(alice(), "Viral Project".into(), 500_000).unwrap();
    assert!(contract.share_campaign(id, "Twitter".into()).is_ok());
}

#[test]
fn test_share_nonexistent_campaign_fails() {
    let contract = setup();
    assert_eq!(contract.share_campaign(999, "Facebook".into()), Err(CrowdfundingError::CampaignNotFound));
}

#[test]
fn list_campaigns_filters_in_creation_order() {
    let mut contract = setup();
    let a = contract.create_campaign(alice(), "A".into(), 100_000).unwrap();
    let b = contract.create_campaign(bob(), "B".into(), 100_000).unwrap();
    contract.activate_campaign(alice(), a).unwrap();
    contract.activate_campaign(bob(), b).unwrap();
    contract.onboard_investor(charlie(), "US".into(), true).unwrap();
    contract.invest(charlie(), b, 90_000).unwrap();
    let all = contract.list_campaigns(CampaignSelector::All);
    assert_eq!(all.len(), 2);
    assert_eq!(all[0].campaign_id, a);
    assert_eq!(all[1].campaign_id, b);
    let by_bob = contract.list_campaigns(CampaignSelector::Creator(bob()));
    assert_eq!(by_bob.len(), 1);
    assert_eq!(by_bob[0].title, "B");
    assert_eq!(by_bob[0].funded_pct, 90);
    let near = contract.list_campaigns(CampaignSelector::NearFunded(80));
    assert_eq!(near.len(), 1);
    assert_eq!(near[0].campaign_id, b);
    let invested = contract.list_campaigns(CampaignSelector::Investor(charlie()));
    assert_eq!(invested.len(), 1);
    assert_eq!(contract.list_campaigns(CampaignSelector::Risk(RiskRating::Unrated)).len(), 2);
}

fn no_filter() -> CampaignFilter {
    CampaignFilter {
        status: None,
        title_keyword: None,
        min_target: None,
        max_target: None,
        min_funded_pct: None,
        funded_only: false,
    }
}

fn three_campaigns() -> RealEstateCrowdfunding {
    let mut contract = setup();
    let a = contract.create_campaign(alice(), "Downtown Lofts".into(), 100_000).unwrap();
    let b = contract.create_campaign(alice(), "Harbor View".into(), 200_000).unwrap();
    let c = contract.create_campaign(alice(), "Uptown LOFT Suites".into(), 300_000).unwrap();
    for id in [a, b, c] {
        contract.activate_campaign(alice(), id).unwrap();
    }
    contract.onboard_investor(charlie(), "US".into(), true).unwrap();
    contract.invest(charlie(), a, 50_000).unwrap();
    contract.invest(charlie(), b, 200_000).unwrap();
    contract.invest(charlie(), c, 50_000).unwrap();
    contract
}

#[test]
fn search_matches_keyword_ignoring_case() {
    let contract = three_campaigns();
    let mut f = no_filter();
    f.title_keyword = Some("loft".into());
    let found = contract.search_campaigns(f, 10);
    assert_eq!(found.len(), 2);
    assert_eq!(found[0].title, "Downtown Lofts");
    assert_eq!(found[1].title, "Uptown LOFT Suites");
}

#[test]
fn search_applies_status_target_and_funding_filters() {
    let contract = three_campaigns();
    let mut funded = no_filter();
    funded.funded_only = true;
    let r = contract.search_campaigns(funded, 10);
    assert_eq!(r.len(), 1);
    assert_eq!(r[0].title, "Harbor View");
    let mut range = no_filter();
    range.min_target = Some(150_000);
    range.max_target = Some(300_000);
    range.status = Some(CampaignStatus::Active);
    let r = contract.search_campaigns(range, 10);
    assert_eq!(r.len(), 1);
    assert_eq!(r[0].target_amount, 300_000);
    let mut pct = no_filter();
    pct.min_funded_pct = Some(50);
    assert_eq!(contract.search_campaigns(pct, 10).len(), 2);
}

#[test]
fn search_stops_at_limit() {
    let contract = three_campaigns();
    let r = contract.search_campaigns(no_filter(), 2);
    assert_eq!(r.len(), 2);
    assert_eq!(r[0].title, "Downtown Lofts");
    assert_eq!(contract.search_campaigns(no_filter(), 0).len(), 0);
    assert_eq!(contract.search_campaigns(no_filter(), 1_000).len(), 3);
}

#[test]
fn top_campaigns_rank_by_raised_keeping_ties_in_order() {
    let contract = three_campaigns();
    let top = contract.get_top_campaigns(10);
    assert_eq!(top.len(), 3);
    assert_eq!(top[0].title, "Harbor View");
    assert_eq!(top[1].title, "Downtown Lofts");
    assert_eq!(top[2].title, "Uptown LOFT Suites");
    let top1 = contract.get_top_campaigns(1);
    assert_eq!(top1.len(), 1);
    assert_eq!(top1[0].raised_amount, 200_000);
    assert_eq!(setup().get_top_campaigns(5).len(), 0);
}
