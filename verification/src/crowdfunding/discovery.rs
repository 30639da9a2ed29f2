//! Browsing campaigns: summaries, filtered lists, pages and counts by status.
use vstd::prelude::*;

use crate::common::{get_or, lookup_or, AccountId};
use crate::crowdfunding::{
    Campaign, CampaignStatus, CrowdState, RealEstateCrowdfunding, RiskRating,
};

verus! {

/// What a campaign list shows of one campaign.
pub struct CampaignSummary {
    pub campaign_id: u64,
    pub creator: AccountId,
    pub title: String,
    pub target_amount: u128,
    pub raised_amount: u128,
    pub funded_pct: u32,
    pub status: CampaignStatus,
    pub investor_count: u32,
    pub risk_rating: RiskRating,
}

/// Which campaigns a list keeps.
#[derive(Clone, Copy, Debug, PartialEq, Eq, Structural)]
pub enum CampaignSelector {
    /// Every campaign.
    All,
    /// Those created by an account.
    Creator(AccountId),
    /// Those with a risk rating.
    Risk(RiskRating),
    /// Active campaigns funded to at least a percentage.
    NearFunded(u32),
    /// Those an account invested in.
    Investor(AccountId),
}

/// The percentage of its target a campaign has raised (0 for a zero target).
pub open spec fn funded_pct(c: Campaign) -> u32 {
    if c.target_amount == 0 {
        0
    } else {
        ((c.raised_amount * 100) / (c.target_amount as int)) as u32
    }
}

/// The summary of campaign `c`.
pub open spec fn summary_of(s: CrowdState, c: Campaign) -> CampaignSummary {
    CampaignSummary {
        campaign_id: c.campaign_id,
        creator: c.creator,
        title: c.title,
        target_amount: c.target_amount,
        raised_amount: c.raised_amount,
        funded_pct: funded_pct(c),
        status: c.status,
        investor_count: c.investor_count,
        risk_rating: if s.risk_profiles.contains_key(c.campaign_id) {
            s.risk_profiles[c.campaign_id].rating
        } else {
            RiskRating::Unrated
        },
    }
}

/// Whether every campaign's percentage can be computed without overflow.
pub open spec fn summarizable(s: CrowdState) -> bool {
    forall|id: u64| #[trigger] s.campaigns.contains_key(id) ==> s.campaigns[id].raised_amount * 100 <= u128::MAX
}

/// Whether campaign `id` belongs in a list made with `sel`.
pub open spec fn selected(s: CrowdState, sel: CampaignSelector, id: u64) -> bool {
    let c = s.campaigns[id];
    match sel {
        CampaignSelector::All => true,
        CampaignSelector::Creator(a) => c.creator == a,
        CampaignSelector::Risk(r) => summary_of(s, c).risk_rating == r,
        CampaignSelector::NearFunded(pct) => c.status == CampaignStatus::Active && funded_pct(c) >= pct,
        CampaignSelector::Investor(a) => get_or(s.investments, (id, a), 0u128) > 0,
    }
}

/// The summaries of the selected campaigns among the first `n` campaign ids, in
/// creation order.
pub open spec fn selected_summaries(s: CrowdState, sel: CampaignSelector, n: int) -> Seq<CampaignSummary>
    decreases n,
{
    if n <= 0 {
        Seq::empty()
    } else {
        let prev = selected_summaries(s, sel, n - 1);
        let id = s.campaign_ids[n - 1];
        if s.campaigns.contains_key(id) && selected(s, sel, id) {
            prev.push(summary_of(s, s.campaigns[id]))
        } else {
            prev
        }
    }
}

/// The summaries of the campaigns whose ids stand at positions `from` to `to` of the
/// creation order.
pub open spec fn page_summaries(s: CrowdState, from: int, to: int) -> Seq<CampaignSummary>
    decreases to - from,
{
    if to <= from {
        Seq::empty()
    } else {
        let prev = page_summaries(s, from, to - 1);
        let id = s.campaign_ids[to - 1];
        if s.campaigns.contains_key(id) {
            prev.push(summary_of(s, s.campaigns[id]))
        } else {
            prev
        }
    }
}

/// Campaigns among the first `n` ids by status: draft, active, funded, closed,
/// cancelled.
pub open spec fn status_counts(s: CrowdState, n: int) -> (u64, u64, u64, u64, u64)
    decreases n,
{
    if n <= 0 {
        (0, 0, 0, 0, 0)
    } else {
        let p = status_counts(s, n - 1);
        let id = s.campaign_ids[n - 1];
        if !s.campaigns.contains_key(id) {
            p
        } else {
            match s.campaigns[id].status {
                CampaignStatus::Draft => ((p.0 + 1) as u64, p.1, p.2, p.3, p.4),
                CampaignStatus::Active => (p.0, (p.1 + 1) as u64, p.2, p.3, p.4),
                CampaignStatus::Funded => (p.0, p.1, (p.2 + 1) as u64, p.3, p.4),
                CampaignStatus::Closed => (p.0, p.1, p.2, (p.3 + 1) as u64, p.4),
                CampaignStatus::Cancelled => (p.0, p.1, p.2, p.3, (p.4 + 1) as u64),
            }
        }
    }
}

impl RealEstateCrowdfunding {
    pub(crate) fn campaign_to_summary(&self, c: &Campaign) -> (r: CampaignSummary)
        requires
            self.wf(),
            c.raised_amount * 100 <= u128::MAX,
        ensures
            r == summary_of(self@, *c),
    {
        let pct: u32 = if c.target_amount == 0 {
            0
        } else {
            ((c.raised_amount * 100) / c.target_amount) as u32
        };
        let risk_rating = match self.risk_profiles.get(&c.campaign_id) {
            Some(p) => p.rating,
            None => RiskRating::Unrated,
        };
        CampaignSummary {
            campaign_id: c.campaign_id,
            creator: c.creator,
            title: c.title.clone(),
            target_amount: c.target_amount,
            raised_amount: c.raised_amount,
            funded_pct: pct,
            status: c.status,
            investor_count: c.investor_count,
            risk_rating,
        }
    }

    fn is_selected(&self, sel: CampaignSelector, id: u64, c: &Campaign) -> (r: bool)
        requires
            self.wf(),
            self@.campaigns.contains_key(id),
            *c == self@.campaigns[id],
            c.raised_amount * 100 <= u128::MAX,
        ensures
            r == selected(self@, sel, id),
    {
        match sel {
            CampaignSelector::All => true,
            CampaignSelector::Creator(a) => c.creator == a,
            CampaignSelector::Risk(rating) => {
                let rr = match self.risk_profiles.get(&c.campaign_id) {
                    Some(p) => p.rating,
                    None => RiskRating::Unrated,
                };
                rr == rating
            },
            CampaignSelector::NearFunded(pct) => {
                let funded: u32 = if c.target_amount == 0 {
                    0
                } else {
                    ((c.raised_amount * 100) / c.target_amount) as u32
                };
                c.status == CampaignStatus::Active && funded >= pct
            },
            CampaignSelector::Investor(a) => lookup_or(&self.investments, &(id, a), 0u128) > 0,
        }
    }

    /// Summaries of the campaigns `sel` keeps, in creation order.
    pub fn list_campaigns(&self, sel: CampaignSelector) -> (r: Vec<CampaignSummary>)
        requires
            self.wf(),
            summarizable(self@),
        ensures
            r@ == selected_summaries(self@, sel, self@.campaign_ids.len() as int),
    {
        let n = self.campaign_ids.len();
        let mut out: Vec<CampaignSummary> = Vec::new();
        let mut i: usize = 0;
        while i < n
            invariant
                self.wf(),
                summarizable(self@),
                n == self@.campaign_ids.len(),
                i <= n,
                out@ == selected_summaries(self@, sel, i as int),
            decreases n - i,
        {
            let id = self.campaign_ids[i];
            match self.campaigns.get(&id) {
                Some(c) => {
                    if self.is_selected(sel, id, c) {
                        out.push(self.campaign_to_summary(c));
                    }
                },
                None => {},
            }
            i = i + 1;
        }
        out
    }

    /// Summaries of the campaigns created by `creator`.
    pub fn get_campaigns_by_creator(&self, creator: AccountId) -> (r: Vec<CampaignSummary>)
        requires
            self.wf(),
            summarizable(self@),
        ensures
            r@ == selected_summaries(self@, CampaignSelector::Creator(creator), self@.campaign_ids.len() as int),
    {
        self.list_campaigns(CampaignSelector::Creator(creator))
    }

    /// Summaries of the campaigns rated `rating` (unassessed ones count as unrated).
    pub fn get_campaigns_by_risk(&self, rating: RiskRating) -> (r: Vec<CampaignSummary>)
        requires
            self.wf(),
            summarizable(self@),
        ensures
            r@ == selected_summaries(self@, CampaignSelector::Risk(rating), self@.campaign_ids.len() as int),
    {
        self.list_campaigns(CampaignSelector::Risk(rating))
    }

    /// Summaries of the active campaigns funded to at least `threshold_pct` percent.
    pub fn get_near_funded_campaigns(&self, threshold_pct: u32) -> (r: Vec<CampaignSummary>)
        requires
            self.wf(),
            summarizable(self@),
        ensures
            r@ == selected_summaries(
                self@,
                CampaignSelector::NearFunded(threshold_pct),
                self@.campaign_ids.len() as int,
            ),
    {
        self.list_campaigns(CampaignSelector::NearFunded(threshold_pct))
    }

    /// Summaries of the campaigns `investor` put money into.
    pub fn get_investor_campaigns(&self, investor: AccountId) -> (r: Vec<CampaignSummary>)
        requires
            self.wf(),
            summarizable(self@),
        ensures
            r@ == selected_summaries(self@, CampaignSelector::Investor(investor), self@.campaign_ids.len() as int),
    {
        self.list_campaigns(CampaignSelector::Investor(investor))
    }

    /// Page `page` (from 0) of the campaigns in creation order, `page_size` per page
    /// with at most 50.
    pub fn get_campaigns_paginated(&self, page: u64, page_size: u64) -> (r: Vec<CampaignSummary>)
        requires
            self.wf(),
            summarizable(self@),
            page * (if page_size < 50 {
                page_size as int
            } else {
                50
            }) <= u64::MAX,
        ensures
            ({
                let size = if page_size < 50 {
                    page_size as int
                } else {
                    50
                };
                let len = self@.campaign_ids.len() as int;
                let from = if page * size < len {
                    page * size
                } else {
                    len
                };
                let to = if from + size < len {
                    from + size
                } else {
                    len
                };
                r@ == page_summaries(self@, from, to)
            }),
    {
        let size: u64 = if page_size < 50 {
            page_size
        } else {
            50
        };
        let start: u64 = page * size;
        let len = self.campaign_ids.len();
        let from: usize = if (start as u128) < (len as u128) {
            start as usize
        } else {
            len
        };
        let to: usize = if (from as u128) + (size as u128) < (len as u128) {
            from + size as usize
        } else {
            len
        };
        let mut out: Vec<CampaignSummary> = Vec::new();
        let mut i: usize = from;
        while i < to
            invariant
                self.wf(),
                summarizable(self@),
                len == self@.campaign_ids.len(),
                from <= i <= to <= len,
                out@ == page_summaries(self@, from as int, i as int),
            decreases to - i,
        {
            let id = self.campaign_ids[i];
            match self.campaigns.get(&id) {
                Some(c) => out.push(self.campaign_to_summary(c)),
                None => {},
            }
            i = i + 1;
        }
        out
    }

    /// Campaigns by status: (draft, active, funded, closed, cancelled).
    pub fn get_campaign_stats(&self) -> (r: (u64, u64, u64, u64, u64))
        requires
            self.wf(),
            self@.campaign_ids.len() <= u64::MAX,
        ensures
            r == status_counts(self@, self@.campaign_ids.len() as int),
    {
        let n = self.campaign_ids.len();
        let mut draft: u64 = 0;
        let mut active: u64 = 0;
        let mut funded: u64 = 0;
        let mut closed: u64 = 0;
        let mut cancelled: u64 = 0;
        let mut i: usize = 0;
        while i < n
            invariant
                self.wf(),
                n == self@.campaign_ids.len(),
                n <= u64::MAX,
                i <= n,
                (draft, active, funded, closed, cancelled) == status_counts(self@, i as int),
                draft + active + funded + closed + cancelled <= i,
            decreases n - i,
        {
            let id = self.campaign_ids[i];
            match self.campaigns.get(&id) {
                Some(c) => {
                    match c.status {
                        CampaignStatus::Draft => draft = draft + 1,
                        CampaignStatus::Active => active = active + 1,
                        CampaignStatus::Funded => funded = funded + 1,
                        CampaignStatus::Closed => closed = closed + 1,
                        CampaignStatus::Cancelled => cancelled = cancelled + 1,
                    }
                },
                None => {},
            }
            i = i + 1;
        }
        (draft, active, funded, closed, cancelled)
    }
}

} // verus!
