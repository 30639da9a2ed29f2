//! Real-estate crowdfunding: campaigns funded by accredited investors, milestone
//! releases verified by oracles, refunds of failed campaigns, investor governance,
//! a secondary market for campaign shares and risk ratings.
use vstd::prelude::*;

pub mod discovery;
pub mod search;

use crate::common::{get_or, lookup_or, AccountId, ReentrancyGuard, Table};

verus! {

/// Why a crowdfunding operation was refused.
#[derive(Clone, Copy, Debug, PartialEq, Eq, Structural)]
pub enum CrowdfundingError {
    Unauthorized,
    CampaignNotFound,
    CampaignNotActive,
    InsufficientFunds,
    MilestoneNotFound,
    MilestoneNotApproved,
    InvestorNotCompliant,
    InsufficientShares,
    ListingNotFound,
    ProposalNotFound,
    ProposalNotActive,
    InvalidParameters,
    AlreadyVoted,
    ReentrantCall,
    OracleVerificationFailed,
    CampaignNotFailed,
    AlreadyRefunded,
    NoInvestmentFound,
    AccreditationNotVerified,
}

/// Where a campaign stands.
#[derive(Clone, Copy, Debug, PartialEq, Eq, Structural)]
pub enum CampaignStatus {
    Draft,
    Active,
    Funded,
    Closed,
    Cancelled,
}

/// An investor's KYC standing.
#[derive(Clone, Copy, Debug, PartialEq, Eq, Structural)]
pub enum ComplianceStatus {
    Pending,
    Approved,
    Rejected,
}

/// Where a milestone stands.
#[derive(Clone, Copy, Debug, PartialEq, Eq, Structural)]
pub enum MilestoneStatus {
    Pending,
    Approved,
    Released,
}

/// Where an investor proposal stands.
#[derive(Clone, Copy, Debug, PartialEq, Eq, Structural)]
pub enum ProposalStatus {
    Active,
    Passed,
    Rejected,
}

/// A campaign's risk rating.
#[derive(Clone, Copy, Debug, PartialEq, Eq, Structural)]
pub enum RiskRating {
    Low,
    Medium,
    High,
    Unrated,
}

/// A fundraising campaign.
pub struct Campaign {
    pub campaign_id: u64,
    pub creator: AccountId,
    pub title: String,
    pub target_amount: u128,
    pub raised_amount: u128,
    pub status: CampaignStatus,
    pub investor_count: u32,
}

impl Campaign {
    /// A field-by-field copy.
    pub fn copy(&self) -> (r: Campaign)
        ensures
            r == *self,
    {
        Campaign {
            campaign_id: self.campaign_id,
            creator: self.creator,
            title: self.title.clone(),
            target_amount: self.target_amount,
            raised_amount: self.raised_amount,
            status: self.status,
            investor_count: self.investor_count,
        }
    }
}

/// What an investor declared at onboarding.
pub struct InvestorProfile {
    pub investor: AccountId,
    pub kyc_status: ComplianceStatus,
    pub accredited: bool,
    pub jurisdiction: String,
}

impl InvestorProfile {
    /// A field-by-field copy.
    pub fn copy(&self) -> (r: InvestorProfile)
        ensures
            r == *self,
    {
        InvestorProfile {
            investor: self.investor,
            kyc_status: self.kyc_status,
            accredited: self.accredited,
            jurisdiction: self.jurisdiction.clone(),
        }
    }
}

/// A tranche of a campaign's funds, released once approved and verified.
pub struct Milestone {
    pub milestone_id: u64,
    pub campaign_id: u64,
    pub description: String,
    pub release_amount: u128,
    pub status: MilestoneStatus,
    pub oracle_verified: bool,
    pub oracle_data_hash: Option<[u8; 32]>,
}

impl Milestone {
    /// A field-by-field copy.
    pub fn copy(&self) -> (r: Milestone)
        ensures
            r == *self,
    {
        Milestone {
            milestone_id: self.milestone_id,
            campaign_id: self.campaign_id,
            description: self.description.clone(),
            release_amount: self.release_amount,
            status: self.status,
            oracle_verified: self.oracle_verified,
            oracle_data_hash: self.oracle_data_hash,
        }
    }
}

/// An investor proposal on a campaign.
pub struct Proposal {
    pub proposal_id: u64,
    pub campaign_id: u64,
    pub description: String,
    pub votes_for: u64,
    pub votes_against: u64,
    pub status: ProposalStatus,
}

impl Proposal {
    /// A field-by-field copy.
    pub fn copy(&self) -> (r: Proposal)
        ensures
            r == *self,
    {
        Proposal {
            proposal_id: self.proposal_id,
            campaign_id: self.campaign_id,
            description: self.description.clone(),
            votes_for: self.votes_for,
            votes_against: self.votes_against,
            status: self.status,
        }
    }
}

/// Campaign shares offered for sale.
#[derive(Clone, Copy, Debug, PartialEq, Eq, Structural)]
pub struct ShareListing {
    pub listing_id: u64,
    pub seller: AccountId,
    pub campaign_id: u64,
    pub shares: u64,
    pub price_per_share: u128,
}

/// The inputs and outcome of a campaign's risk assessment.
#[derive(Clone, Copy, Debug, PartialEq, Eq, Structural)]
pub struct RiskProfile {
    pub campaign_id: u64,
    pub ltv_ratio: u32,
    pub developer_score: u32,
    pub market_volatility: u32,
    pub rating: RiskRating,
}

/// How far a campaign has come.
#[derive(Clone, Copy, Debug, PartialEq, Eq, Structural)]
pub struct CampaignSuccessMetrics {
    pub campaign_id: u64,
    pub funding_progress_bps: u32,
    pub investor_count: u32,
    pub average_investment: u128,
    pub total_milestones: u32,
    pub released_milestones: u32,
    pub released_capital: u128,
    pub is_funded: bool,
}

/// The abstract state of the crowdfunding contract.
#[verifier::ext_equal]
pub struct CrowdState {
    pub admin: AccountId,
    pub campaigns: Map<u64, Campaign>,
    pub campaign_count: u64,
    pub campaign_ids: Seq<u64>,
    pub profiles: Map<AccountId, InvestorProfile>,
    pub investments: Map<(u64, AccountId), u128>,
    pub milestones: Map<u64, Milestone>,
    pub milestone_count: u64,
    pub proposals: Map<u64, Proposal>,
    pub proposal_count: u64,
    pub voting_weights: Map<(u64, AccountId), u64>,
    pub votes_cast: Map<(u64, AccountId), bool>,
    pub shares: Map<(u64, AccountId), u64>,
    pub listings: Map<u64, ShareListing>,
    pub listing_count: u64,
    pub risk_profiles: Map<u64, RiskProfile>,
    pub milestone_counts: Map<u64, u32>,
    pub released_counts: Map<u64, u32>,
    pub released_capital: Map<u64, u128>,
    pub blocked_jurisdictions: Seq<String>,
    pub locked: bool,
    pub oracles: Map<AccountId, bool>,
    pub refunds: Map<(u64, AccountId), bool>,
}

/// The crowdfunding contract.
pub struct RealEstateCrowdfunding {
    admin: AccountId,
    campaigns: Table<u64, Campaign>,
    campaign_count: u64,
    campaign_ids: Vec<u64>,
    profiles: Table<AccountId, InvestorProfile>,
    investments: Table<(u64, AccountId), u128>,
    milestones: Table<u64, Milestone>,
    milestone_count: u64,
    proposals: Table<u64, Proposal>,
    proposal_count: u64,
    voting_weights: Table<(u64, AccountId), u64>,
    votes_cast: Table<(u64, AccountId), bool>,
    shares: Table<(u64, AccountId), u64>,
    listings: Table<u64, ShareListing>,
    listing_count: u64,
    risk_profiles: Table<u64, RiskProfile>,
    milestone_counts: Table<u64, u32>,
    released_counts: Table<u64, u32>,
    released_capital: Table<u64, u128>,
    blocked_jurisdictions: Vec<String>,
    /// Rejects a payout entered while another one is running.
    pub reentrancy_guard: ReentrancyGuard,
    oracles: Table<AccountId, bool>,
    refunds: Table<(u64, AccountId), bool>,
}

impl View for RealEstateCrowdfunding {
    type V = CrowdState;

    closed spec fn view(&self) -> CrowdState {
        CrowdState {
            admin: self.admin,
            campaigns: self.campaigns@,
            campaign_count: self.campaign_count,
            campaign_ids: self.campaign_ids@,
            profiles: self.profiles@,
            investments: self.investments@,
            milestones: self.milestones@,
            milestone_count: self.milestone_count,
            proposals: self.proposals@,
            proposal_count: self.proposal_count,
            voting_weights: self.voting_weights@,
            votes_cast: self.votes_cast@,
            shares: self.shares@,
            listings: self.listings@,
            listing_count: self.listing_count,
            risk_profiles: self.risk_profiles@,
            milestone_counts: self.milestone_counts@,
            released_counts: self.released_counts@,
            released_capital: self.released_capital@,
            blocked_jurisdictions: self.blocked_jurisdictions@,
            locked: self.reentrancy_guard.locked,
            oracles: self.oracles@,
            refunds: self.refunds@,
        }
    }
}

/// Whether investors of `jurisdiction` are barred.
pub open spec fn is_blocked(s: CrowdState, jurisdiction: Seq<char>) -> bool {
    exists|i: int| 0 <= i < s.blocked_jurisdictions.len() && s.blocked_jurisdictions[i]@ == jurisdiction
}

/// The rating of an assessment: low risk for a low loan-to-value ratio, a strong
/// developer and a calm market, medium for moderate figures, high otherwise.
pub open spec fn risk_rating(ltv: u32, dev_score: u32, volatility: u32) -> RiskRating {
    if ltv < 60 && dev_score >= 75 && volatility < 15 {
        RiskRating::Low
    } else if ltv < 80 && dev_score >= 50 && volatility < 30 {
        RiskRating::Medium
    } else {
        RiskRating::High
    }
}

/// Why `caller` could not invest in campaign `campaign_id`, if it could not.
pub open spec fn invest_error(s: CrowdState, caller: AccountId, campaign_id: u64) -> Option<CrowdfundingError> {
    if !s.profiles.contains_key(caller) {
        Some(CrowdfundingError::InvestorNotCompliant)
    } else {
        let p = s.profiles[caller];
        if p.kyc_status != ComplianceStatus::Approved {
            Some(CrowdfundingError::InvestorNotCompliant)
        } else if !p.accredited {
            Some(CrowdfundingError::AccreditationNotVerified)
        } else if is_blocked(s, p.jurisdiction@) {
            Some(CrowdfundingError::InvestorNotCompliant)
        } else if !s.campaigns.contains_key(campaign_id) {
            Some(CrowdfundingError::CampaignNotFound)
        } else if s.campaigns[campaign_id].status != CampaignStatus::Active {
            Some(CrowdfundingError::CampaignNotActive)
        } else {
            None
        }
    }
}

/// Shares an investment of `amount` earns: one per thousand.
pub open spec fn shares_for(amount: u128) -> u64 {
    (amount / 1000) as u64
}

/// The outcome of `caller` claiming a refund from campaign `campaign_id`: allowed once,
/// from a failed campaign, for what the investor put in.
pub open spec fn refund_outcome(s: CrowdState, caller: AccountId, campaign_id: u64) -> (CrowdState, Result<
    u128,
    CrowdfundingError,
>) {
    let amount = get_or(s.investments, (campaign_id, caller), 0u128);
    if s.locked {
        (s, Err(CrowdfundingError::ReentrantCall))
    } else if !s.campaigns.contains_key(campaign_id) {
        (s, Err(CrowdfundingError::CampaignNotFound))
    } else if s.campaigns[campaign_id].status != CampaignStatus::Cancelled {
        (s, Err(CrowdfundingError::CampaignNotFailed))
    } else if get_or(s.refunds, (campaign_id, caller), false) {
        (s, Err(CrowdfundingError::AlreadyRefunded))
    } else if amount == 0 {
        (s, Err(CrowdfundingError::NoInvestmentFound))
    } else {
        (CrowdState { refunds: s.refunds.insert((campaign_id, caller), true), ..s }, Ok(amount))
    }
}

/// A refund is paid once, and is what the investor put in: a successful claim returns
/// the investor's whole investment, and claiming again is refused with
/// `AlreadyRefunded`.
pub proof fn lemma_refund_once(s: CrowdState, caller: AccountId, campaign_id: u64)
    requires
        refund_outcome(s, caller, campaign_id).1 is Ok,
    ensures
        refund_outcome(s, caller, campaign_id).1 == Ok::<u128, CrowdfundingError>(
            get_or(s.investments, (campaign_id, caller), 0u128),
        ),
        ({
            let s2 = refund_outcome(s, caller, campaign_id).0;
            refund_outcome(s2, caller, campaign_id) == (s2, Err::<u128, CrowdfundingError>(
                CrowdfundingError::AlreadyRefunded,
            ))
        }),
{
}

/// An investment adds exactly its amount to the campaign's raise and to the investor's
/// stake, and no other campaign or investor changes.
pub proof fn lemma_invest_adds_amount(s: CrowdState, caller: AccountId, campaign_id: u64, amount: u128, other: (
    u64,
    AccountId,
))
    requires
        s.campaigns.contains_key(campaign_id),
        s.campaigns[campaign_id].raised_amount + amount <= u128::MAX,
        get_or(s.investments, (campaign_id, caller), 0u128) + amount <= u128::MAX,
        other != (campaign_id, caller),
    ensures
        ({
            let s2 = invested(s, caller, campaign_id, amount);
            &&& s2.campaigns[campaign_id].raised_amount == s.campaigns[campaign_id].raised_amount + amount
            &&& get_or(s2.investments, (campaign_id, caller), 0u128) == get_or(
                s.investments,
                (campaign_id, caller),
                0u128,
            ) + amount
            &&& get_or(s2.investments, other, 0u128) == get_or(s.investments, other, 0u128)
            &&& forall|id: u64| id != campaign_id ==> #[trigger] s2.campaigns.contains_key(id) == s.campaigns.contains_key(id)
                && (s.campaigns.contains_key(id) ==> s2.campaigns[id] == s.campaigns[id])
        }),
{
}

/// The state after `caller` invests `amount` in campaign `campaign_id`.
pub open spec fn invested(s: CrowdState, caller: AccountId, campaign_id: u64, amount: u128) -> CrowdState {
    let c = s.campaigns[campaign_id];
    let current = get_or(s.investments, (campaign_id, caller), 0u128);
    let raised = (c.raised_amount + amount) as u128;
    CrowdState {
        campaigns: s.campaigns.insert(
            campaign_id,
            Campaign {
                investor_count: if current == 0 {
                    (c.investor_count + 1) as u32
                } else {
                    c.investor_count
                },
                raised_amount: raised,
                status: if raised >= c.target_amount {
                    CampaignStatus::Funded
                } else {
                    c.status
                },
                ..c
            },
        ),
        investments: s.investments.insert((campaign_id, caller), (current + amount) as u128),
        shares: s.shares.insert(
            (campaign_id, caller),
            (get_or(s.shares, (campaign_id, caller), 0u64) + shares_for(amount)) as u64,
        ),
        ..s
    }
}

impl RealEstateCrowdfunding {
    /// The tables' invariants.
    pub closed spec fn wf(&self) -> bool {
        &&& self.campaigns.wf()
        &&& self.profiles.wf()
        &&& self.investments.wf()
        &&& self.milestones.wf()
        &&& self.proposals.wf()
        &&& self.voting_weights.wf()
        &&& self.votes_cast.wf()
        &&& self.shares.wf()
        &&& self.listings.wf()
        &&& self.risk_profiles.wf()
        &&& self.milestone_counts.wf()
        &&& self.released_counts.wf()
        &&& self.released_capital.wf()
        &&& self.oracles.wf()
        &&& self.refunds.wf()
    }

    /// A contract administered by `admin`, with no campaigns.
    pub fn new(admin: AccountId) -> (r: RealEstateCrowdfunding)
        ensures
            r.wf(),
            r@ == (CrowdState {
                admin,
                campaigns: Map::empty(),
                campaign_count: 0,
                campaign_ids: Seq::empty(),
                profiles: Map::empty(),
                investments: Map::empty(),
                milestones: Map::empty(),
                milestone_count: 0,
                proposals: Map::empty(),
                proposal_count: 0,
                voting_weights: Map::empty(),
                votes_cast: Map::empty(),
                shares: Map::empty(),
                listings: Map::empty(),
                listing_count: 0,
                risk_profiles: Map::empty(),
                milestone_counts: Map::empty(),
                released_counts: Map::empty(),
                released_capital: Map::empty(),
                blocked_jurisdictions: Seq::empty(),
                locked: false,
                oracles: Map::empty(),
                refunds: Map::empty(),
            }),
    {
        let r = RealEstateCrowdfunding {
            admin,
            campaigns: Table::new(),
            campaign_count: 0,
            campaign_ids: Vec::new(),
            profiles: Table::new(),
            investments: Table::new(),
            milestones: Table::new(),
            milestone_count: 0,
            proposals: Table::new(),
            proposal_count: 0,
            voting_weights: Table::new(),
            votes_cast: Table::new(),
            shares: Table::new(),
            listings: Table::new(),
            listing_count: 0,
            risk_profiles: Table::new(),
            milestone_counts: Table::new(),
            released_counts: Table::new(),
            released_capital: Table::new(),
            blocked_jurisdictions: Vec::new(),
            reentrancy_guard: ReentrancyGuard::new(),
            oracles: Table::new(),
            refunds: Table::new(),
        };
        assert(r@.campaign_ids =~= Seq::<u64>::empty());
        assert(r@.blocked_jurisdictions =~= Seq::<String>::empty());
        r
    }

    /// `caller` opens a draft campaign to raise `target_amount`.
    pub fn create_campaign(&mut self, caller: AccountId, title: String, target_amount: u128) -> (r: Result<
        u64,
        CrowdfundingError,
    >)
        requires
            old(self).wf(),
            old(self)@.campaign_count < u64::MAX,
        ensures
            final(self).wf(),
            ({
                let s = old(self)@;
                let id = (s.campaign_count + 1) as u64;
                r == Ok::<u64, CrowdfundingError>(id) && final(self)@ == (CrowdState {
                    campaign_count: id,
                    campaigns: s.campaigns.insert(
                        id,
                        Campaign {
                            campaign_id: id,
                            creator: caller,
                            title,
                            target_amount,
                            raised_amount: 0,
                            status: CampaignStatus::Draft,
                            investor_count: 0,
                        },
                    ),
                    campaign_ids: s.campaign_ids.push(id),
                    ..s
                })
            }),
    {
        self.campaign_count = self.campaign_count + 1;
        let id = self.campaign_count;
        let c = Campaign {
            campaign_id: id,
            creator: caller,
            title,
            target_amount,
            raised_amount: 0,
            status: CampaignStatus::Draft,
            investor_count: 0,
        };
        let ghost cv = c;
        self.campaigns.insert(id, c);
        self.campaign_ids.push(id);
        assert(self@ =~= CrowdState {
            campaign_count: id,
            campaigns: old(self)@.campaigns.insert(id, cv),
            campaign_ids: old(self)@.campaign_ids.push(id),
            ..old(self)@
        });
        Ok(id)
    }

    /// The creator, or the admin, opens a campaign to investment.
    pub fn activate_campaign(&mut self, caller: AccountId, campaign_id: u64) -> (r: Result<(), CrowdfundingError>)
        requires
            old(self).wf(),
        ensures
            final(self).wf(),
            ({
                let s = old(self)@;
                if !s.campaigns.contains_key(campaign_id) {
                    r == Err::<(), CrowdfundingError>(CrowdfundingError::CampaignNotFound) && final(self)@ == s
                } else if caller != s.campaigns[campaign_id].creator && caller != s.admin {
                    r == Err::<(), CrowdfundingError>(CrowdfundingError::Unauthorized) && final(self)@ == s
                } else {
                    r == Ok::<(), CrowdfundingError>(()) && final(self)@ == (CrowdState {
                        campaigns: s.campaigns.insert(
                            campaign_id,
                            Campaign { status: CampaignStatus::Active, ..s.campaigns[campaign_id] },
                        ),
                        ..s
                    })
                }
            }),
    {
        let mut c = match self.campaigns.get(&campaign_id) {
            Some(c) => c.copy(),
            None => return Err(CrowdfundingError::CampaignNotFound),
        };
        if caller != c.creator && caller != self.admin {
            return Err(CrowdfundingError::Unauthorized);
        }
        c.status = CampaignStatus::Active;
        let ghost cv = c;
        self.campaigns.insert(campaign_id, c);
        assert(self@ =~= CrowdState { campaigns: old(self)@.campaigns.insert(campaign_id, cv), ..old(self)@ });
        Ok(())
    }

    /// `caller` registers as a KYC-approved investor of `jurisdiction`, declaring whether
    /// it is accredited.
    pub fn onboard_investor(&mut self, caller: AccountId, jurisdiction: String, accredited: bool) -> (r: Result<
        (),
        CrowdfundingError,
    >)
        requires
            old(self).wf(),
        ensures
            final(self).wf(),
            r == Ok::<(), CrowdfundingError>(()),
            final(self)@ == (CrowdState {
                profiles: old(self)@.profiles.insert(
                    caller,
                    InvestorProfile {
                        investor: caller,
                        kyc_status: ComplianceStatus::Approved,
                        accredited,
                        jurisdiction,
                    },
                ),
                ..old(self)@
            }),
    {
        let p = InvestorProfile {
            investor: caller,
            kyc_status: ComplianceStatus::Approved,
            accredited,
            jurisdiction,
        };
        let ghost pv = p;
        self.profiles.insert(caller, p);
        assert(self@ =~= CrowdState { profiles: old(self)@.profiles.insert(caller, pv), ..old(self)@ });
        Ok(())
    }

    /// The admin confirms that an onboarded investor is accredited.
    pub fn verify_accreditation(&mut self, caller: AccountId, investor: AccountId) -> (r: Result<
        (),
        CrowdfundingError,
    >)
        requires
            old(self).wf(),
        ensures
            final(self).wf(),
            ({
                let s = old(self)@;
                if caller != s.admin {
                    r == Err::<(), CrowdfundingError>(CrowdfundingError::Unauthorized) && final(self)@ == s
                } else if !s.profiles.contains_key(investor) {
                    r == Err::<(), CrowdfundingError>(CrowdfundingError::InvestorNotCompliant) && final(self)@
                        == s
                } else {
                    r == Ok::<(), CrowdfundingError>(()) && final(self)@ == (CrowdState {
                        profiles: s.profiles.insert(
                            investor,
                            InvestorProfile { accredited: true, ..s.profiles[investor] },
                        ),
                        ..s
                    })
                }
            }),
    {
        if caller != self.admin {
            return Err(CrowdfundingError::Unauthorized);
        }
        let mut p = match self.profiles.get(&investor) {
            Some(p) => p.copy(),
            None => return Err(CrowdfundingError::InvestorNotCompliant),
        };
        p.accredited = true;
        let ghost pv = p;
        self.profiles.insert(investor, p);
        assert(self@ =~= CrowdState { profiles: old(self)@.profiles.insert(investor, pv), ..old(self)@ });
        Ok(())
    }

    /// Whether `investor` is onboarded and accredited.
    pub fn is_accredited(&self, investor: AccountId) -> (r: bool)
        requires
            self.wf(),
        ensures
            r == (self@.profiles.contains_key(investor) && self@.profiles[investor].accredited),
    {
        match self.profiles.get(&investor) {
            Some(p) => p.accredited,
            None => false,
        }
    }

    fn jurisdiction_blocked(&self, jurisdiction: &String) -> (r: bool)
        ensures
            r == is_blocked(self@, jurisdiction@),
    {
        let n = self.blocked_jurisdictions.len();
        let mut i: usize = 0;
        while i < n
            invariant
                n == self@.blocked_jurisdictions.len(),
                i <= n,
                forall|j: int| 0 <= j < i ==> self@.blocked_jurisdictions[j]@ != jurisdiction@,
            decreases n - i,
        {
            if self.blocked_jurisdictions[i] == *jurisdiction {
                return true;
            }
            i = i + 1;
        }
        false
    }

    /// An approved, accredited investor from an unblocked jurisdiction invests `amount`
    /// in an active campaign, earning one share per thousand; the campaign is funded
    /// once it reaches its target.
    pub fn invest(&mut self, caller: AccountId, campaign_id: u64, amount: u128) -> (r: Result<
        (),
        CrowdfundingError,
    >)
        requires
            old(self).wf(),
            invest_error(old(self)@, caller, campaign_id) is None ==> {
                let s = old(self)@;
                let c = s.campaigns[campaign_id];
                &&& c.raised_amount + amount <= u128::MAX
                &&& c.investor_count < u32::MAX
                &&& get_or(s.investments, (campaign_id, caller), 0u128) + amount <= u128::MAX
                &&& get_or(s.shares, (campaign_id, caller), 0u64) + shares_for(amount) <= u64::MAX
            },
        ensures
            final(self).wf(),
            match invest_error(old(self)@, caller, campaign_id) {
                Some(e) => r == Err::<(), CrowdfundingError>(e) && final(self)@ == old(self)@,
                None => r == Ok::<(), CrowdfundingError>(()) && final(self)@ == invested(
                    old(self)@,
                    caller,
                    campaign_id,
                    amount,
                ),
            },
    {
        let profile = match self.profiles.get(&caller) {
            Some(p) => p.copy(),
            None => return Err(CrowdfundingError::InvestorNotCompliant),
        };
        if profile.kyc_status != ComplianceStatus::Approved {
            return Err(CrowdfundingError::InvestorNotCompliant);
        }
        if !profile.accredited {
            return Err(CrowdfundingError::AccreditationNotVerified);
        }
        if self.jurisdiction_blocked(&profile.jurisdiction) {
            return Err(CrowdfundingError::InvestorNotCompliant);
        }
        let mut c = match self.campaigns.get(&campaign_id) {
            Some(c) => c.copy(),
            None => return Err(CrowdfundingError::CampaignNotFound),
        };
        if c.status != CampaignStatus::Active {
            return Err(CrowdfundingError::CampaignNotActive);
        }
        let current = lookup_or(&self.investments, &(campaign_id, caller), 0u128);
        if current == 0 {
            c.investor_count = c.investor_count + 1;
        }
        self.investments.insert((campaign_id, caller), current + amount);
        c.raised_amount = c.raised_amount + amount;
        if c.raised_amount >= c.target_amount {
            c.status = CampaignStatus::Funded;
        }
        let ghost cv = c;
        self.campaigns.insert(campaign_id, c);
        let new_shares = (amount / 1000) as u64;
        let held = lookup_or(&self.shares, &(campaign_id, caller), 0u64);
        self.shares.insert((campaign_id, caller), held + new_shares);
        assert(self@ =~= invested(old(self)@, caller, campaign_id, amount));
        Ok(())
    }

    /// The creator, or the admin, adds a milestone releasing `release_amount` to a
    /// campaign.
    pub fn add_milestone(&mut self, caller: AccountId, campaign_id: u64, description: String, release_amount: u128) -> (r:
        Result<u64, CrowdfundingError>)
        requires
            old(self).wf(),
            old(self)@.milestone_count < u64::MAX,
            get_or(old(self)@.milestone_counts, campaign_id, 0u32) < u32::MAX,
        ensures
            final(self).wf(),
            ({
                let s = old(self)@;
                let id = (s.milestone_count + 1) as u64;
                if !s.campaigns.contains_key(campaign_id) {
                    r == Err::<u64, CrowdfundingError>(CrowdfundingError::CampaignNotFound) && final(self)@ == s
                } else if caller != s.campaigns[campaign_id].creator && caller != s.admin {
                    r == Err::<u64, CrowdfundingError>(CrowdfundingError::Unauthorized) && final(self)@ == s
                } else {
                    r == Ok::<u64, CrowdfundingError>(id) && final(self)@ == (CrowdState {
                        milestone_count: id,
                        milestones: s.milestones.insert(
                            id,
                            Milestone {
                                milestone_id: id,
                                campaign_id,
                                description,
                                release_amount,
                                status: MilestoneStatus::Pending,
                                oracle_verified: false,
                                oracle_data_hash: None,
                            },
                        ),
                        milestone_counts: s.milestone_counts.insert(
                            campaign_id,
                            (get_or(s.milestone_counts, campaign_id, 0u32) + 1) as u32,
                        ),
                        ..s
                    })
                }
            }),
    {
        let creator = match self.campaigns.get(&campaign_id) {
            Some(c) => c.creator,
            None => return Err(CrowdfundingError::CampaignNotFound),
        };
        if caller != creator && caller != self.admin {
            return Err(CrowdfundingError::Unauthorized);
        }
        self.milestone_count = self.milestone_count + 1;
        let id = self.milestone_count;
        let m = Milestone {
            milestone_id: id,
            campaign_id,
            description,
            release_amount,
            status: MilestoneStatus::Pending,
            oracle_verified: false,
            oracle_data_hash: None,
        };
        let ghost mv = m;
        self.milestones.insert(id, m);
        let total = lookup_or(&self.milestone_counts, &campaign_id, 0u32) + 1;
        self.milestone_counts.insert(campaign_id, total);
        assert(self@ =~= CrowdState {
            milestone_count: id,
            milestones: old(self)@.milestones.insert(id, mv),
            milestone_counts: old(self)@.milestone_counts.insert(campaign_id, total),
            ..old(self)@
        });
        Ok(id)
    }

    /// The admin approves a milestone for release.
    pub fn approve_milestone(&mut self, caller: AccountId, milestone_id: u64) -> (r: Result<(), CrowdfundingError>)
        requires
            old(self).wf(),
        ensures
            final(self).wf(),
            ({
                let s = old(self)@;
                if caller != s.admin {
                    r == Err::<(), CrowdfundingError>(CrowdfundingError::Unauthorized) && final(self)@ == s
                } else if !s.milestones.contains_key(milestone_id) {
                    r == Err::<(), CrowdfundingError>(CrowdfundingError::MilestoneNotFound) && final(self)@ == s
                } else {
                    r == Ok::<(), CrowdfundingError>(()) && final(self)@ == (CrowdState {
                        milestones: s.milestones.insert(
                            milestone_id,
                            Milestone { status: MilestoneStatus::Approved, ..s.milestones[milestone_id] },
                        ),
                        ..s
                    })
                }
            }),
    {
        if caller != self.admin {
            return Err(CrowdfundingError::Unauthorized);
        }
        let mut m = match self.milestones.get(&milestone_id) {
            Some(m) => m.copy(),
            None => return Err(CrowdfundingError::MilestoneNotFound),
        };
        m.status = MilestoneStatus::Approved;
        let ghost mv = m;
        self.milestones.insert(milestone_id, m);
        assert(self@ =~= CrowdState { milestones: old(self)@.milestones.insert(milestone_id, mv), ..old(self)@ });
        Ok(())
    }

    /// Releases an approved, oracle-verified milestone and counts its capital as
    /// released.
    pub fn release_milestone(&mut self, milestone_id: u64) -> (r: Result<(), CrowdfundingError>)
        requires
            old(self).wf(),
            old(self)@.milestones.contains_key(milestone_id) ==> {
                let m = old(self)@.milestones[milestone_id];
                &&& get_or(old(self)@.released_counts, m.campaign_id, 0u32) < u32::MAX
                &&& get_or(old(self)@.released_capital, m.campaign_id, 0u128) + m.release_amount
                    <= u128::MAX
            },
        ensures
            final(self).wf(),
            ({
                let s = old(self)@;
                if s.locked {
                    r == Err::<(), CrowdfundingError>(CrowdfundingError::ReentrantCall) && final(self)@ == s
                } else if !s.milestones.contains_key(milestone_id) {
                    r == Err::<(), CrowdfundingError>(CrowdfundingError::MilestoneNotFound) && final(self)@ == s
                } else {
                    let m = s.milestones[milestone_id];
                    if m.status != MilestoneStatus::Approved {
                        r == Err::<(), CrowdfundingError>(CrowdfundingError::MilestoneNotApproved) && final(self)@ == s
                    } else if !m.oracle_verified {
                        r == Err::<(), CrowdfundingError>(CrowdfundingError::OracleVerificationFailed)
                            && final(self)@ == s
                    } else {
                        r == Ok::<(), CrowdfundingError>(()) && final(self)@ == (CrowdState {
                            milestones: s.milestones.insert(
                                milestone_id,
                                Milestone { status: MilestoneStatus::Released, ..m },
                            ),
                            released_counts: s.released_counts.insert(
                                m.campaign_id,
                                (get_or(s.released_counts, m.campaign_id, 0u32) + 1) as u32,
                            ),
                            released_capital: s.released_capital.insert(
                                m.campaign_id,
                                (get_or(s.released_capital, m.campaign_id, 0u128) + m.release_amount)
                                    as u128,
                            ),
                            ..s
                        })
                    }
                }
            }),
    {
        if self.reentrancy_guard.locked {
            return Err(CrowdfundingError::ReentrantCall);
        }
        let mut m = match self.milestones.get(&milestone_id) {
            Some(m) => m.copy(),
            None => return Err(CrowdfundingError::MilestoneNotFound),
        };
        if m.status != MilestoneStatus::Approved {
            return Err(CrowdfundingError::MilestoneNotApproved);
        }
        if !m.oracle_verified {
            return Err(CrowdfundingError::OracleVerificationFailed);
        }
        m.status = MilestoneStatus::Released;
        let campaign_id = m.campaign_id;
        let amount = m.release_amount;
        let ghost mv = m;
        self.milestones.insert(milestone_id, m);
        let count = lookup_or(&self.released_counts, &campaign_id, 0u32) + 1;
        self.released_counts.insert(campaign_id, count);
        let capital = lookup_or(&self.released_capital, &campaign_id, 0u128) + amount;
        self.released_capital.insert(campaign_id, capital);
        assert(self@ =~= CrowdState {
            milestones: old(self)@.milestones.insert(milestone_id, mv),
            released_counts: old(self)@.released_counts.insert(campaign_id, count),
            released_capital: old(self)@.released_capital.insert(campaign_id, capital),
            ..old(self)@
        });
        Ok(())
    }

    /// An authorized oracle (or the admin) records its verification of a milestone.
    pub fn oracle_verify_milestone(&mut self, caller: AccountId, milestone_id: u64, data_hash: [u8; 32]) -> (r:
        Result<(), CrowdfundingError>)
        requires
            old(self).wf(),
        ensures
            final(self).wf(),
            ({
                let s = old(self)@;
                if !get_or(s.oracles, caller, false) && caller != s.admin {
                    r == Err::<(), CrowdfundingError>(CrowdfundingError::Unauthorized) && final(self)@ == s
                } else if !s.milestones.contains_key(milestone_id) {
                    r == Err::<(), CrowdfundingError>(CrowdfundingError::MilestoneNotFound) && final(self)@ == s
                } else {
                    r == Ok::<(), CrowdfundingError>(()) && final(self)@ == (CrowdState {
                        milestones: s.milestones.insert(
                            milestone_id,
                            Milestone {
                                oracle_verified: true,
                                oracle_data_hash: Some(data_hash),
                                ..s.milestones[milestone_id]
                            },
                        ),
                        ..s
                    })
                }
            }),
    {
        if !lookup_or(&self.oracles, &caller, false) && caller != self.admin {
            return Err(CrowdfundingError::Unauthorized);
        }
        let mut m = match self.milestones.get(&milestone_id) {
            Some(m) => m.copy(),
            None => return Err(CrowdfundingError::MilestoneNotFound),
        };
        m.oracle_verified = true;
        m.oracle_data_hash = Some(data_hash);
        let ghost mv = m;
        self.milestones.insert(milestone_id, m);
        assert(self@ =~= CrowdState { milestones: old(self)@.milestones.insert(milestone_id, mv), ..old(self)@ });
        Ok(())
    }

    /// The admin authorizes an oracle account.
    pub fn add_oracle(&mut self, caller: AccountId, oracle: AccountId) -> (r: Result<(), CrowdfundingError>)
        requires
            old(self).wf(),
        ensures
            final(self).wf(),
            caller != old(self)@.admin ==> r == Err::<(), CrowdfundingError>(CrowdfundingError::Unauthorized)
                && final(self)@ == old(self)@,
            caller == old(self)@.admin ==> r == Ok::<(), CrowdfundingError>(()) && final(self)@ == (
            CrowdState { oracles: old(self)@.oracles.insert(oracle, true), ..old(self)@ }),
    {
        if caller != self.admin {
            return Err(CrowdfundingError::Unauthorized);
        }
        self.oracles.insert(oracle, true);
        assert(self@ =~= CrowdState { oracles: old(self)@.oracles.insert(oracle, true), ..old(self)@ });
        Ok(())
    }

    /// The admin marks a campaign failed, which opens refunds.
    pub fn fail_campaign(&mut self, caller: AccountId, campaign_id: u64) -> (r: Result<(), CrowdfundingError>)
        requires
            old(self).wf(),
        ensures
            final(self).wf(),
            ({
                let s = old(self)@;
                if caller != s.admin {
                    r == Err::<(), CrowdfundingError>(CrowdfundingError::Unauthorized) && final(self)@ == s
                } else if !s.campaigns.contains_key(campaign_id) {
                    r == Err::<(), CrowdfundingError>(CrowdfundingError::CampaignNotFound) && final(self)@ == s
                } else {
                    r == Ok::<(), CrowdfundingError>(()) && final(self)@ == (CrowdState {
                        campaigns: s.campaigns.insert(
                            campaign_id,
                            Campaign { status: CampaignStatus::Cancelled, ..s.campaigns[campaign_id] },
                        ),
                        ..s
                    })
                }
            }),
    {
        if caller != self.admin {
            return Err(CrowdfundingError::Unauthorized);
        }
        let mut c = match self.campaigns.get(&campaign_id) {
            Some(c) => c.copy(),
            None => return Err(CrowdfundingError::CampaignNotFound),
        };
        c.status = CampaignStatus::Cancelled;
        let ghost cv = c;
        self.campaigns.insert(campaign_id, c);
        assert(self@ =~= CrowdState { campaigns: old(self)@.campaigns.insert(campaign_id, cv), ..old(self)@ });
        Ok(())
    }

    /// An investor of a failed campaign claims its investment back, once; returns the
    /// amount refunded.
    pub fn claim_refund(&mut self, caller: AccountId, campaign_id: u64) -> (r: Result<u128, CrowdfundingError>)
        requires
            old(self).wf(),
        ensures
            final(self).wf(),
            (final(self)@, r) == refund_outcome(old(self)@, caller, campaign_id),
    {
        if self.reentrancy_guard.locked {
            return Err(CrowdfundingError::ReentrantCall);
        }
        let status = match self.campaigns.get(&campaign_id) {
            Some(c) => c.status,
            None => return Err(CrowdfundingError::CampaignNotFound),
        };
        if status != CampaignStatus::Cancelled {
            return Err(CrowdfundingError::CampaignNotFailed);
        }
        if lookup_or(&self.refunds, &(campaign_id, caller), false) {
            return Err(CrowdfundingError::AlreadyRefunded);
        }
        let amount = lookup_or(&self.investments, &(campaign_id, caller), 0u128);
        if amount == 0 {
            return Err(CrowdfundingError::NoInvestmentFound);
        }
        self.refunds.insert((campaign_id, caller), true);
        assert(self@ =~= CrowdState { refunds: old(self)@.refunds.insert((campaign_id, caller), true), ..old(self)@ });
        Ok(amount)
    }

    /// Whether `investor` was refunded for campaign `campaign_id`.
    pub fn is_refunded(&self, campaign_id: u64, investor: AccountId) -> (r: bool)
        requires
            self.wf(),
        ensures
            r == get_or(self@.refunds, (campaign_id, investor), false),
    {
        lookup_or(&self.refunds, &(campaign_id, investor), false)
    }

    /// The part of `total_profit` owed to `investor`: in proportion of its investment to
    /// the campaign's target (0 for an unknown campaign or a zero target).
    pub fn distribute_profit(&self, campaign_id: u64, total_profit: u128, investor: AccountId) -> (r: u128)
        requires
            self.wf(),
            self@.campaigns.contains_key(campaign_id) && self@.campaigns[campaign_id].target_amount != 0
                ==> total_profit * get_or(self@.investments, (campaign_id, investor), 0u128) <= u128::MAX,
        ensures
            r == if !self@.campaigns.contains_key(campaign_id) || self@.campaigns[campaign_id].target_amount
                == 0 {
                0
            } else {
                total_profit * get_or(self@.investments, (campaign_id, investor), 0u128)
                    / (self@.campaigns[campaign_id].target_amount as int)
            },
    {
        let target = match self.campaigns.get(&campaign_id) {
            Some(c) => c.target_amount,
            None => 0,
        };
        let investment = lookup_or(&self.investments, &(campaign_id, investor), 0u128);
        if target == 0 {
            return 0;
        }
        (total_profit * investment) / target
    }

    /// Opens a proposal on an existing campaign.
    pub fn create_proposal(&mut self, campaign_id: u64, description: String) -> (r: Result<u64, CrowdfundingError>)
        requires
            old(self).wf(),
            old(self)@.proposal_count < u64::MAX,
        ensures
            final(self).wf(),
            ({
                let s = old(self)@;
                let id = (s.proposal_count + 1) as u64;
                if !s.campaigns.contains_key(campaign_id) {
                    r == Err::<u64, CrowdfundingError>(CrowdfundingError::CampaignNotFound) && final(self)@ == s
                } else {
                    r == Ok::<u64, CrowdfundingError>(id) && final(self)@ == (CrowdState {
                        proposal_count: id,
                        proposals: s.proposals.insert(
                            id,
                            Proposal {
                                proposal_id: id,
                                campaign_id,
                                description,
                                votes_for: 0,
                                votes_against: 0,
                                status: ProposalStatus::Active,
                            },
                        ),
                        ..s
                    })
                }
            }),
    {
        if !self.campaigns.contains(&campaign_id) {
            return Err(CrowdfundingError::CampaignNotFound);
        }
        self.proposal_count = self.proposal_count + 1;
        let id = self.proposal_count;
        let p = Proposal {
            proposal_id: id,
            campaign_id,
            description,
            votes_for: 0,
            votes_against: 0,
            status: ProposalStatus::Active,
        };
        let ghost pv = p;
        self.proposals.insert(id, p);
        assert(self@ =~= CrowdState {
            proposal_count: id,
            proposals: old(self)@.proposals.insert(id, pv),
            ..old(self)@
        });
        Ok(id)
    }

    /// `caller` votes once on an active proposal, with its voting weight for the
    /// campaign (1 by default).
    pub fn vote(&mut self, caller: AccountId, proposal_id: u64, in_favour: bool) -> (r: Result<(), CrowdfundingError>)
        requires
            old(self).wf(),
            old(self)@.proposals.contains_key(proposal_id) ==> {
                let p = old(self)@.proposals[proposal_id];
                let w = get_or(old(self)@.voting_weights, (p.campaign_id, caller), 1u64);
                p.votes_for + w <= u64::MAX && p.votes_against + w <= u64::MAX
            },
        ensures
            final(self).wf(),
            ({
                let s = old(self)@;
                if get_or(s.votes_cast, (proposal_id, caller), false) {
                    r == Err::<(), CrowdfundingError>(CrowdfundingError::AlreadyVoted) && final(self)@ == s
                } else if !s.proposals.contains_key(proposal_id) {
                    r == Err::<(), CrowdfundingError>(CrowdfundingError::ProposalNotFound) && final(self)@ == s
                } else {
                    let p = s.proposals[proposal_id];
                    let w = get_or(s.voting_weights, (p.campaign_id, caller), 1u64);
                    if p.status != ProposalStatus::Active {
                        r == Err::<(), CrowdfundingError>(CrowdfundingError::ProposalNotActive) && final(self)@
                            == s
                    } else {
                        r == Ok::<(), CrowdfundingError>(()) && final(self)@ == (CrowdState {
                            proposals: s.proposals.insert(
                                proposal_id,
                                if in_favour {
                                    Proposal { votes_for: (p.votes_for + w) as u64, ..p }
                                } else {
                                    Proposal { votes_against: (p.votes_against + w) as u64, ..p }
                                },
                            ),
                            votes_cast: s.votes_cast.insert((proposal_id, caller), true),
                            ..s
                        })
                    }
                }
            }),
    {
        if lookup_or(&self.votes_cast, &(proposal_id, caller), false) {
            return Err(CrowdfundingError::AlreadyVoted);
        }
        let mut p = match self.proposals.get(&proposal_id) {
            Some(p) => p.copy(),
            None => return Err(CrowdfundingError::ProposalNotFound),
        };
        if p.status != ProposalStatus::Active {
            return Err(CrowdfundingError::ProposalNotActive);
        }
        let w = lookup_or(&self.voting_weights, &(p.campaign_id, caller), 1u64);
        if in_favour {
            p.votes_for = p.votes_for + w;
        } else {
            p.votes_against = p.votes_against + w;
        }
        let ghost pv = p;
        self.proposals.insert(proposal_id, p);
        self.votes_cast.insert((proposal_id, caller), true);
        assert(self@ =~= CrowdState {
            proposals: old(self)@.proposals.insert(proposal_id, pv),
            votes_cast: old(self)@.votes_cast.insert((proposal_id, caller), true),
            ..old(self)@
        });
        Ok(())
    }

    /// Closes a proposal: passed with more votes for than against, rejected otherwise.
    pub fn finalize_proposal(&mut self, proposal_id: u64) -> (r: Result<ProposalStatus, CrowdfundingError>)
        requires
            old(self).wf(),
        ensures
            final(self).wf(),
            ({
                let s = old(self)@;
                if !s.proposals.contains_key(proposal_id) {
                    r == Err::<ProposalStatus, CrowdfundingError>(CrowdfundingError::ProposalNotFound) && final(self)@ == s
                } else {
                    let p = s.proposals[proposal_id];
                    let status = if p.votes_for > p.votes_against {
                        ProposalStatus::Passed
                    } else {
                        ProposalStatus::Rejected
                    };
                    r == Ok::<ProposalStatus, CrowdfundingError>(status) && final(self)@ == (CrowdState {
                        proposals: s.proposals.insert(proposal_id, Proposal { status, ..p }),
                        ..s
                    })
                }
            }),
    {
        let mut p = match self.proposals.get(&proposal_id) {
            Some(p) => p.copy(),
            None => return Err(CrowdfundingError::ProposalNotFound),
        };
        p.status = if p.votes_for > p.votes_against {
            ProposalStatus::Passed
        } else {
            ProposalStatus::Rejected
        };
        let status = p.status;
        let ghost pv = p;
        self.proposals.insert(proposal_id, p);
        assert(self@ =~= CrowdState { proposals: old(self)@.proposals.insert(proposal_id, pv), ..old(self)@ });
        Ok(status)
    }

    /// `caller` offers `shares` of a campaign at `price_per_share`; it must hold them.
    pub fn list_shares(&mut self, caller: AccountId, campaign_id: u64, shares: u64, price_per_share: u128) -> (r:
        Result<u64, CrowdfundingError>)
        requires
            old(self).wf(),
            old(self)@.listing_count < u64::MAX,
        ensures
            final(self).wf(),
            ({
                let s = old(self)@;
                let id = (s.listing_count + 1) as u64;
                if get_or(s.shares, (campaign_id, caller), 0u64) < shares {
                    r == Err::<u64, CrowdfundingError>(CrowdfundingError::InsufficientShares) && final(self)@ == s
                } else {
                    r == Ok::<u64, CrowdfundingError>(id) && final(self)@ == (CrowdState {
                        listing_count: id,
                        listings: s.listings.insert(
                            id,
                            ShareListing { listing_id: id, seller: caller, campaign_id, shares, price_per_share },
                        ),
                        ..s
                    })
                }
            }),
    {
        let held = lookup_or(&self.shares, &(campaign_id, caller), 0u64);
        if held < shares {
            return Err(CrowdfundingError::InsufficientShares);
        }
        self.listing_count = self.listing_count + 1;
        let id = self.listing_count;
        let l = ShareListing { listing_id: id, seller: caller, campaign_id, shares, price_per_share };
        self.listings.insert(id, l);
        assert(self@ =~= CrowdState {
            listing_count: id,
            listings: old(self)@.listings.insert(id, l),
            ..old(self)@
        });
        Ok(id)
    }

    /// `caller` buys a whole listing: the shares move from the seller (what it still
    /// holds of them) to the buyer and the listing closes; returns the price owed.
    pub fn buy_shares(&mut self, caller: AccountId, listing_id: u64) -> (r: Result<u128, CrowdfundingError>)
        requires
            old(self).wf(),
            old(self)@.listings.contains_key(listing_id) ==> {
                let l = old(self)@.listings[listing_id];
                let seller_after = crate::common::ssub64(
                    get_or(old(self)@.shares, (l.campaign_id, l.seller), 0u64),
                    l.shares,
                );
                let buyer_before = if caller == l.seller {
                    seller_after
                } else {
                    get_or(old(self)@.shares, (l.campaign_id, caller), 0u64)
                };
                &&& l.price_per_share * l.shares <= u128::MAX
                &&& buyer_before + l.shares <= u64::MAX
            },
        ensures
            final(self).wf(),
            ({
                let s = old(self)@;
                if !s.listings.contains_key(listing_id) {
                    r == Err::<u128, CrowdfundingError>(CrowdfundingError::ListingNotFound) && final(self)@ == s
                } else {
                    let l = s.listings[listing_id];
                    let after_sale = s.shares.insert(
                        (l.campaign_id, l.seller),
                        crate::common::ssub64(get_or(s.shares, (l.campaign_id, l.seller), 0u64), l.shares),
                    );
                    r == Ok::<u128, CrowdfundingError>((l.price_per_share * l.shares) as u128) && final(self)@ == (CrowdState {
                        shares: after_sale.insert(
                            (l.campaign_id, caller),
                            (get_or(after_sale, (l.campaign_id, caller), 0u64) + l.shares) as u64,
                        ),
                        listings: s.listings.remove(listing_id),
                        ..s
                    })
                }
            }),
    {
        let l = match self.listings.get(&listing_id) {
            Some(l) => *l,
            None => return Err(CrowdfundingError::ListingNotFound),
        };
        let total_cost = l.price_per_share * (l.shares as u128);
        let seller_shares = lookup_or(&self.shares, &(l.campaign_id, l.seller), 0u64);
        self.shares.insert((l.campaign_id, l.seller), seller_shares.saturating_sub(l.shares));
        let buyer_shares = lookup_or(&self.shares, &(l.campaign_id, caller), 0u64);
        self.shares.insert((l.campaign_id, caller), buyer_shares + l.shares);
        self.listings.remove(&listing_id);
        assert(self@ =~= CrowdState {
            shares: self@.shares,
            listings: old(self)@.listings.remove(listing_id),
            ..old(self)@
        });
        Ok(total_cost)
    }

    /// The admin records a risk assessment of a campaign and its rating.
    pub fn assess_risk(&mut self, caller: AccountId, campaign_id: u64, ltv: u32, dev_score: u32, volatility: u32) -> (r:
        Result<(), CrowdfundingError>)
        requires
            old(self).wf(),
        ensures
            final(self).wf(),
            caller != old(self)@.admin ==> r == Err::<(), CrowdfundingError>(CrowdfundingError::Unauthorized)
                && final(self)@ == old(self)@,
            caller == old(self)@.admin ==> r == Ok::<(), CrowdfundingError>(()) && final(self)@ == (
            CrowdState {
                risk_profiles: old(self)@.risk_profiles.insert(
                    campaign_id,
                    RiskProfile {
                        campaign_id,
                        ltv_ratio: ltv,
                        developer_score: dev_score,
                        market_volatility: volatility,
                        rating: risk_rating(ltv, dev_score, volatility),
                    },
                ),
                ..old(self)@
            }),
    {
        if caller != self.admin {
            return Err(CrowdfundingError::Unauthorized);
        }
        let rating = if ltv < 60 && dev_score >= 75 && volatility < 15 {
            RiskRating::Low
        } else if ltv < 80 && dev_score >= 50 && volatility < 30 {
            RiskRating::Medium
        } else {
            RiskRating::High
        };
        let p = RiskProfile {
            campaign_id,
            ltv_ratio: ltv,
            developer_score: dev_score,
            market_volatility: volatility,
            rating,
        };
        self.risk_profiles.insert(campaign_id, p);
        assert(self@ =~= CrowdState { risk_profiles: old(self)@.risk_profiles.insert(campaign_id, p), ..old(self)@ });
        Ok(())
    }

    /// Promotes an existing campaign on `platform`; refused for an unknown campaign.
    pub fn share_campaign(&self, campaign_id: u64, platform: String) -> (r: Result<(), CrowdfundingError>)
        requires
            self.wf(),
        ensures
            r == if self@.campaigns.contains_key(campaign_id) {
                Ok::<(), CrowdfundingError>(())
            } else {
                Err::<(), CrowdfundingError>(CrowdfundingError::CampaignNotFound)
            },
    {
        if self.campaigns.contains(&campaign_id) {
            Ok(())
        } else {
            Err(CrowdfundingError::CampaignNotFound)
        }
    }

    /// Campaign `campaign_id`, if there is one.
    pub fn get_campaign(&self, campaign_id: u64) -> (r: Option<Campaign>)
        requires
            self.wf(),
        ensures
            r == if self@.campaigns.contains_key(campaign_id) {
                Some(self@.campaigns[campaign_id])
            } else {
                None::<Campaign>
            },
    {
        match self.campaigns.get(&campaign_id) {
            Some(c) => Some(c.copy()),
            None => None,
        }
    }

    /// What `investor` put into campaign `campaign_id`.
    pub fn get_investment(&self, campaign_id: u64, investor: AccountId) -> (r: u128)
        requires
            self.wf(),
        ensures
            r == get_or(self@.investments, (campaign_id, investor), 0u128),
    {
        lookup_or(&self.investments, &(campaign_id, investor), 0u128)
    }

    /// Milestone `milestone_id`, if there is one.
    pub fn get_milestone(&self, milestone_id: u64) -> (r: Option<Milestone>)
        requires
            self.wf(),
        ensures
            r == if self@.milestones.contains_key(milestone_id) {
                Some(self@.milestones[milestone_id])
            } else {
                None::<Milestone>
            },
    {
        match self.milestones.get(&milestone_id) {
            Some(m) => Some(m.copy()),
            None => None,
        }
    }

    /// Proposal `proposal_id`, if there is one.
    pub fn get_proposal(&self, proposal_id: u64) -> (r: Option<Proposal>)
        requires
            self.wf(),
        ensures
            r == if self@.proposals.contains_key(proposal_id) {
                Some(self@.proposals[proposal_id])
            } else {
                None::<Proposal>
            },
    {
        match self.proposals.get(&proposal_id) {
            Some(p) => Some(p.copy()),
            None => None,
        }
    }

    /// Listing `listing_id`, if it is still open.
    pub fn get_listing(&self, listing_id: u64) -> (r: Option<ShareListing>)
        requires
            self.wf(),
        ensures
            r == if self@.listings.contains_key(listing_id) {
                Some(self@.listings[listing_id])
            } else {
                None::<ShareListing>
            },
    {
        match self.listings.get(&listing_id) {
            Some(l) => Some(*l),
            None => None,
        }
    }

    /// The risk profile of campaign `campaign_id`, if it was assessed.
    pub fn get_risk_profile(&self, campaign_id: u64) -> (r: Option<RiskProfile>)
        requires
            self.wf(),
        ensures
            r == if self@.risk_profiles.contains_key(campaign_id) {
                Some(self@.risk_profiles[campaign_id])
            } else {
                None::<RiskProfile>
            },
    {
        match self.risk_profiles.get(&campaign_id) {
            Some(p) => Some(*p),
            None => None,
        }
    }

    /// Funding progress (in bips of the target), investors, average investment and
    /// milestone releases of campaign `campaign_id`.
    pub fn get_campaign_success_metrics(&self, campaign_id: u64) -> (r: Option<CampaignSuccessMetrics>)
        requires
            self.wf(),
        ensures
            r == if self@.campaigns.contains_key(campaign_id) {
                let c = self@.campaigns[campaign_id];
                Some(
                    CampaignSuccessMetrics {
                        campaign_id,
                        funding_progress_bps: if c.target_amount == 0 {
                            0u32
                        } else {
                            (crate::math::smul(c.raised_amount, 10_000) / c.target_amount) as u32
                        },
                        investor_count: c.investor_count,
                        average_investment: if c.investor_count == 0 {
                            0
                        } else {
                            c.raised_amount / (c.investor_count as u128)
                        },
                        total_milestones: get_or(self@.milestone_counts, campaign_id, 0u32),
                        released_milestones: get_or(self@.released_counts, campaign_id, 0u32),
                        released_capital: get_or(self@.released_capital, campaign_id, 0u128),
                        is_funded: c.status == CampaignStatus::Funded,
                    },
                )
            } else {
                None::<CampaignSuccessMetrics>
            },
    {
        let c = match self.campaigns.get(&campaign_id) {
            Some(c) => c.copy(),
            None => return None,
        };
        let funding_progress_bps: u32 = if c.target_amount == 0 {
            0
        } else {
            (crate::math::sat_mul(c.raised_amount, 10_000) / c.target_amount) as u32
        };
        let average_investment = if c.investor_count == 0 {
            0
        } else {
            c.raised_amount / (c.investor_count as u128)
        };
        Some(
            CampaignSuccessMetrics {
                campaign_id,
                funding_progress_bps,
                investor_count: c.investor_count,
                average_investment,
                total_milestones: lookup_or(&self.milestone_counts, &campaign_id, 0u32),
                released_milestones: lookup_or(&self.released_counts, &campaign_id, 0u32),
                released_capital: lookup_or(&self.released_capital, &campaign_id, 0u128),
                is_funded: c.status == CampaignStatus::Funded,
            },
        )
    }

    /// Shares of campaign `campaign_id` held by `investor`.
    pub fn get_shares(&self, campaign_id: u64, investor: AccountId) -> (r: u64)
        requires
            self.wf(),
        ensures
            r == get_or(self@.shares, (campaign_id, investor), 0u64),
    {
        lookup_or(&self.shares, &(campaign_id, investor), 0u64)
    }

    /// The admin.
    pub fn get_admin(&self) -> (r: AccountId)
        ensures
            r == self@.admin,
    {
        self.admin
    }

    /// Campaigns created so far.
    pub fn get_campaign_count(&self) -> (r: u64)
        ensures
            r == self@.campaign_count,
    {
        self.campaign_count
    }
}

} // verus!
