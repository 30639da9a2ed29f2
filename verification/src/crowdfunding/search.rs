//! Searching campaigns by status, title keyword (ignoring case), target range and
//! funding.
use vstd::prelude::*;
use vstd::string::StrSliceExecFns;

use crate::crowdfunding::discovery::{
    selected_summaries, summarizable, summary_of, CampaignSelector, CampaignSummary,
};
use crate::crowdfunding::{CampaignStatus, CrowdState, RealEstateCrowdfunding};

verus! {

/// What a campaign search asks for; each criterion left out matches every campaign.
pub struct CampaignFilter {
    pub status: Option<CampaignStatus>,
    /// A word the title must contain, whatever the case.
    pub title_keyword: Option<String>,
    pub min_target: Option<u128>,
    pub max_target: Option<u128>,
    pub min_funded_pct: Option<u32>,
    pub funded_only: bool,
}

/// The most results a search returns.
pub const MAX_SEARCH_RESULTS: u64 = 50;

/// The lowercase form of `s`, as `str::to_lowercase` computes it.
pub uninterp spec fn lowercase(s: Seq<char>) -> Seq<char>;

/// `str::to_lowercase`: the lowercase form of `s` (Unicode lowercase mapping, which
/// may change the length). The contract names the result [`lowercase`] of the
/// argument and claims nothing more of it.
#[verifier::external_body]
fn to_lowercase(s: &str) -> (r: String)
    ensures
        r@ == lowercase(s@),
{
    s.to_lowercase()
}

/// Whether `needle` occurs in `hay` as a run of consecutive characters.
pub open spec fn occurs_in(hay: Seq<char>, needle: Seq<char>) -> bool {
    exists|i: int| 0 <= i <= hay.len() - needle.len() && #[trigger] hay.subrange(i, i + needle.len()) == needle
}

/// Whether a summary meets every criterion of `f`.
pub open spec fn filter_matches(f: CampaignFilter, sm: CampaignSummary) -> bool {
    &&& f.status is Some ==> sm.status == f.status->0
    &&& f.title_keyword is Some ==> occurs_in(lowercase(sm.title@), lowercase(f.title_keyword->0@))
    &&& f.min_target is Some ==> sm.target_amount >= f.min_target->0
    &&& f.max_target is Some ==> sm.target_amount <= f.max_target->0
    &&& f.min_funded_pct is Some ==> sm.funded_pct >= f.min_funded_pct->0
    &&& f.funded_only ==> sm.status == CampaignStatus::Funded
}

/// The summaries matching `f` among the first `n` campaign ids, in creation order.
pub open spec fn matching_summaries(s: CrowdState, f: CampaignFilter, n: int) -> Seq<CampaignSummary>
    decreases n,
{
    if n <= 0 {
        Seq::empty()
    } else {
        let prev = matching_summaries(s, f, n - 1);
        let id = s.campaign_ids[n - 1];
        if s.campaigns.contains_key(id) && filter_matches(f, summary_of(s, s.campaigns[id])) {
            prev.push(summary_of(s, s.campaigns[id]))
        } else {
            prev
        }
    }
}

/// The first `k` of `results` (all of them when there are fewer).
pub open spec fn first_results(results: Seq<CampaignSummary>, k: int) -> Seq<CampaignSummary> {
    if results.len() <= k {
        results
    } else {
        results.subrange(0, k)
    }
}

/// Whether `needle` occurs in `hay` (see [`occurs_in`]).
pub fn contains_chars(hay: &str, needle: &str) -> (r: bool)
    ensures
        r == occurs_in(hay@, needle@),
{
    let n = hay.unicode_len();
    let m = needle.unicode_len();
    if m > n {
        proof {
            if occurs_in(hay@, needle@) {
                let i = choose|i: int| 0 <= i <= hay@.len() - needle@.len() && #[trigger] hay@.subrange(i, i + needle@.len()) == needle@;
            }
        }
        return false;
    }
    let mut start: usize = 0;
    while start <= n - m
        invariant
            n == hay@.len(),
            m == needle@.len(),
            m <= n,
            start <= n - m + 1,
            forall|i: int| 0 <= i < start ==> #[trigger] hay@.subrange(i, i + m) != needle@,
        decreases n - m + 1 - start,
    {
        let mut k: usize = 0;
        let mut same = true;
        while k < m
            invariant
                n == hay@.len(),
                m == needle@.len(),
                start + m <= n,
                k <= m,
                same == (forall|j: int| 0 <= j < k ==> hay@[start + j] == needle@[j]),
            decreases m - k,
        {
            if hay.get_char(start + k) != needle.get_char(k) {
                same = false;
            }
            k = k + 1;
        }
        if same {
            assert(hay@.subrange(start as int, start + m) =~= needle@);
            return true;
        }
        assert(hay@.subrange(start as int, start + m) != needle@) by {
            let j = choose|j: int| 0 <= j < m && hay@[start + j] != needle@[j];
            assert(hay@.subrange(start as int, start + m)[j] == hay@[start + j]);
        }
        start = start + 1;
    }
    false
}

/// Whether the summary at position `i` of `all` comes before the one at `j` when
/// campaigns are ranked by amount raised, most first, ties kept in creation order.
pub open spec fn ranks_before(all: Seq<CampaignSummary>, i: int, j: int) -> bool {
    ||| all[i].raised_amount > all[j].raised_amount
    ||| all[i].raised_amount == all[j].raised_amount && i < j
}

/// The smaller of `a` and `b`.
pub open spec fn min_int(a: int, b: int) -> int {
    if a < b {
        a
    } else {
        b
    }
}

/// Whether `idx` lists the positions of the first `k` summaries of `all` in ranking
/// order (see [`ranks_before`]): each listed one ranks before the next and before
/// every summary left out.
pub open spec fn is_top_order(all: Seq<CampaignSummary>, idx: Seq<int>, k: int) -> bool {
    &&& idx.len() == min_int(all.len() as int, k)
    &&& forall|p: int| 0 <= p < idx.len() ==> 0 <= #[trigger] idx[p] < all.len()
    &&& forall|p: int, q: int| 0 <= p < q < idx.len() ==> ranks_before(all, #[trigger] idx[p], #[trigger] idx[q])
    &&& forall|p: int, j: int|
        0 <= p < idx.len() && 0 <= j < all.len() && !idx.contains(j) ==> #[trigger] ranks_before(all, idx[p], j)
}

/// The summaries of `all` at the positions `idx`, in that order.
pub open spec fn at_positions(all: Seq<CampaignSummary>, idx: Seq<int>) -> Seq<CampaignSummary> {
    Seq::new(idx.len(), |p: int| all[idx[p]])
}

/// A list of distinct positions below `n` has at most `n` entries, and exactly `n`
/// when it lists every position below `n`.
proof fn lemma_positions_count(idx: Seq<int>, n: int)
    requires
        0 <= n,
        idx.no_duplicates(),
        forall|p: int| 0 <= p < idx.len() ==> 0 <= #[trigger] idx[p] < n,
    ensures
        idx.len() <= n,
        (forall|j: int| 0 <= j < n ==> idx.contains(j)) ==> idx.len() == n,
{
    idx.unique_seq_to_set();
    vstd::set_lib::lemma_int_range(0, n);
    let range = vstd::set_lib::set_int_range(0, n);
    assert(idx.to_set().subset_of(range));
    vstd::set_lib::lemma_len_subset(idx.to_set(), range);
    if forall|j: int| 0 <= j < n ==> idx.contains(j) {
        assert(range.subset_of(idx.to_set()));
        vstd::seq_lib::seq_to_set_is_finite(idx);
        vstd::set_lib::lemma_len_subset(range, idx.to_set());
    }
}

/// The first `k` summaries of `all` ranked by amount raised, most first, ties kept in
/// their order in `all`.
fn top_by_raised(all: &Vec<CampaignSummary>, k: usize) -> (r: Vec<CampaignSummary>)
    ensures
        exists|idx: Seq<int>| is_top_order(all@, idx, k as int) && r@ == at_positions(all@, idx),
{
    let n = all.len();
    let mut out: Vec<CampaignSummary> = Vec::new();
    let ghost mut idx: Seq<int> = Seq::empty();
    let mut last: usize = 0;
    let mut started = false;
    let mut exhausted = false;
    while !exhausted && out.len() < k
        invariant
            n == all@.len(),
            out@.len() == idx.len(),
            out@.len() <= k,
            forall|p: int| 0 <= p < idx.len() ==> 0 <= #[trigger] idx[p] < n,
            out@ == at_positions(all@, idx),
            forall|p: int, q: int| 0 <= p < q < idx.len() ==> ranks_before(all@, #[trigger] idx[p], #[trigger] idx[q]),
            started == (idx.len() > 0),
            started ==> last < n && last == idx.last(),
            forall|j: int|
                0 <= j < n ==> (idx.contains(j) <==> (started && (j == last || #[trigger] ranks_before(all@, j, last as int)))),
            exhausted ==> forall|j: int| 0 <= j < n ==> idx.contains(j),
        decreases k - out@.len(), if exhausted { 0int } else { 1int },
    {
        let mut best: usize = 0;
        let mut found = false;
        let mut j: usize = 0;
        while j < n
            invariant
                n == all@.len(),
                j <= n,
                started ==> last < n,
                found ==> best < j,
                found ==> !started || ranks_before(all@, last as int, best as int),
                found ==> forall|i: int|
                    0 <= i < j && (!started || ranks_before(all@, last as int, i)) ==> (i == best
                        || #[trigger] ranks_before(all@, best as int, i)),
                !found ==> j == 0 || started,
                !found ==> forall|i: int| 0 <= i < j ==> !#[trigger] ranks_before(all@, last as int, i),
            decreases n - j,
        {
            let candidate = !started || all[last].raised_amount > all[j].raised_amount || (
            all[last].raised_amount == all[j].raised_amount && last < j);
            if candidate {
                if !found || all[j].raised_amount > all[best].raised_amount {
                    proof {
                        assert forall|i: int|
                            0 <= i < j && (!started || ranks_before(all@, last as int, i)) implies #[trigger] ranks_before(
                            all@,
                            j as int,
                            i,
                        ) by {
                            if !found {
                                assert(!ranks_before(all@, last as int, i));
                            }
                            if found && i != best {
                                assert(ranks_before(all@, best as int, i));
                            }
                        }
                    }
                    best = j;
                    found = true;
                } else {
                    assert(j == best || ranks_before(all@, best as int, j as int));
                }
            } else {
                assert(!ranks_before(all@, last as int, j as int));
            }
            j = j + 1;
        }
        if !found {
            exhausted = true;
            proof {
                assert forall|i: int| 0 <= i < n implies idx.contains(i) by {
                    assert(started);
                    assert(!ranks_before(all@, last as int, i));
                    assert(i == last || ranks_before(all@, i, last as int));
                }
            }
        } else {
            let s = &all[best];
            out.push(CampaignSummary {
                campaign_id: s.campaign_id,
                creator: s.creator,
                title: s.title.clone(),
                target_amount: s.target_amount,
                raised_amount: s.raised_amount,
                funded_pct: s.funded_pct,
                status: s.status,
                investor_count: s.investor_count,
                risk_rating: s.risk_rating,
            });
            proof {
                let old_idx = idx;
                idx = idx.push(best as int);
                assert(out@ =~= at_positions(all@, idx));
                assert(idx[old_idx.len() as int] == best);
                assert forall|i: int| 0 <= i < n implies (idx.contains(i) <==> (i == best || ranks_before(all@, i, best as int))) by {
                    if i != best {
                        if old_idx.contains(i) {
                            assert(started && (i == last || ranks_before(all@, i, last as int)));
                            assert(ranks_before(all@, last as int, best as int));
                            assert(ranks_before(all@, i, best as int));
                        } else {
                            assert(!(started && (i == last || ranks_before(all@, i, last as int))));
                            assert(!started || ranks_before(all@, last as int, i));
                            assert(ranks_before(all@, best as int, i));
                            assert(!ranks_before(all@, i, best as int));
                        }
                    }
                    if old_idx.contains(i) {
                        let p = choose|p: int| 0 <= p < old_idx.len() && old_idx[p] == i;
                        assert(idx[p] == i);
                    }
                    if idx.contains(i) && i != best {
                        let p = choose|p: int| 0 <= p < idx.len() && idx[p] == i;
                        assert(old_idx[p] == i);
                    }
                }
            }
            last = best;
            started = true;
        }
    }
    proof {
        assert(idx.no_duplicates()) by {
            assert forall|p: int, q: int| 0 <= p < idx.len() && 0 <= q < idx.len() && p != q implies idx[p] != idx[q] by {
                if p < q {
                    assert(ranks_before(all@, idx[p], idx[q]));
                } else {
                    assert(ranks_before(all@, idx[q], idx[p]));
                }
            }
        }
        lemma_positions_count(idx, n as int);
        assert forall|p: int, j: int|
            0 <= p < idx.len() && 0 <= j < n && !idx.contains(j) implies #[trigger] ranks_before(all@, idx[p], j) by {
            assert(idx.contains(idx[p]));
            assert(ranks_before(all@, idx[p], last as int) || idx[p] == last);
            assert(!ranks_before(all@, j, last as int));
        }
    }
    out
}

impl RealEstateCrowdfunding {
    fn matches_filter(sm: &CampaignSummary, filter: &CampaignFilter) -> (r: bool)
        ensures
            r == filter_matches(*filter, *sm),
    {
        match filter.status {
            Some(st) => {
                if sm.status != st {
                    return false;
                }
            },
            None => {},
        }
        match &filter.title_keyword {
            Some(kw) => {
                let title = to_lowercase(sm.title.as_str());
                let key = to_lowercase(kw.as_str());
                if !contains_chars(title.as_str(), key.as_str()) {
                    return false;
                }
            },
            None => {},
        }
        match filter.min_target {
            Some(min) => {
                if sm.target_amount < min {
                    return false;
                }
            },
            None => {},
        }
        match filter.max_target {
            Some(max) => {
                if sm.target_amount > max {
                    return false;
                }
            },
            None => {},
        }
        match filter.min_funded_pct {
            Some(pct) => {
                if sm.funded_pct < pct {
                    return false;
                }
            },
            None => {},
        }
        if filter.funded_only && sm.status != CampaignStatus::Funded {
            return false;
        }
        true
    }

    /// The campaigns matching `filter` (see [`filter_matches`]), in creation order, at
    /// most `limit` of them and never more than 50.
    pub fn search_campaigns(&self, filter: CampaignFilter, limit: u64) -> (r: Vec<CampaignSummary>)
        requires
            self.wf(),
            summarizable(self@),
        ensures
            r@ == first_results(
                matching_summaries(self@, filter, self@.campaign_ids.len() as int),
                if limit < MAX_SEARCH_RESULTS {
                    limit as int
                } else {
                    MAX_SEARCH_RESULTS as int
                },
            ),
    {
        let cap: u64 = if limit < MAX_SEARCH_RESULTS {
            limit
        } else {
            MAX_SEARCH_RESULTS
        };
        let n = self.campaign_ids.len();
        let mut out: Vec<CampaignSummary> = Vec::new();
        let mut i: usize = 0;
        while i < n
            invariant
                self.wf(),
                summarizable(self@),
                n == self@.campaign_ids.len(),
                i <= n,
                out@ == first_results(matching_summaries(self@, filter, i as int), cap as int),
            decreases n - i,
        {
            let ghost prev = matching_summaries(self@, filter, i as int);
            let id = self.campaign_ids[i];
            match self.campaigns.get(&id) {
                Some(c) => {
                    let sm = self.campaign_to_summary(c);
                    if Self::matches_filter(&sm, &filter) {
                        if (out.len() as u64) < cap {
                            out.push(sm);
                        }
                        proof {
                            let next = prev.push(summary_of(self@, self@.campaigns[id]));
                            if prev.len() < cap {
                                assert(first_results(next, cap as int) =~= first_results(prev, cap as int).push(
                                    summary_of(self@, self@.campaigns[id]),
                                ));
                            } else {
                                assert(first_results(next, cap as int) =~= first_results(prev, cap as int));
                            }
                        }
                    }
                },
                None => {},
            }
            i = i + 1;
        }
        out
    }

    /// Up to `n` campaigns (never more than 50), those that raised most first; campaigns
    /// that raised the same keep their creation order.
    pub fn get_top_campaigns(&self, n: u64) -> (r: Vec<CampaignSummary>)
        requires
            self.wf(),
            summarizable(self@),
        ensures
            exists|idx: Seq<int>|
                is_top_order(
                    selected_summaries(self@, CampaignSelector::All, self@.campaign_ids.len() as int),
                    idx,
                    min_int(n as int, MAX_SEARCH_RESULTS as int),
                ) && r@ == at_positions(
                    selected_summaries(self@, CampaignSelector::All, self@.campaign_ids.len() as int),
                    idx,
                ),
    {
        let cap: u64 = if n < MAX_SEARCH_RESULTS {
            n
        } else {
            MAX_SEARCH_RESULTS
        };
        let all = self.list_campaigns(CampaignSelector::All);
        top_by_raised(&all, cap as usize)
    }
}

} // verus!
