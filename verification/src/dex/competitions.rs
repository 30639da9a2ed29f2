//! Trading competitions: traders' swap volume scored per competition, with
//! leaderboards, reward shares and summaries read from the competition book.
use vstd::prelude::*;

use crate::common::{get0, get_or, is_listed, listed, lookup_or, AccountId, Table};
use crate::math::{sadd, sat_add, sat_mul, smul};
use crate::dex::PropertyDex;

verus! {

/// A trading competition on one pair (or on every pair when `pair_id` is `None`).
pub struct TradingCompetition {
    pub competition_id: u64,
    pub pair_id: Option<u64>,
    pub title: String,
    pub reward_amount: u128,
    pub start_block: u64,
    pub end_block: u64,
    pub min_trade_volume: u128,
    pub top_n: u32,
    pub reward_token_symbol: String,
    pub active: bool,
}

impl TradingCompetition {
    /// A field-by-field copy.
    pub fn copy(&self) -> (r: TradingCompetition)
        ensures
            r == *self,
    {
        TradingCompetition {
            competition_id: self.competition_id,
            pair_id: self.pair_id,
            title: self.title.clone(),
            reward_amount: self.reward_amount,
            start_block: self.start_block,
            end_block: self.end_block,
            min_trade_volume: self.min_trade_volume,
            top_n: self.top_n,
            reward_token_symbol: self.reward_token_symbol.clone(),
            active: self.active,
        }
    }
}

/// The abstract state of the competition book.
pub struct CompetitionState {
    pub counter: u64,
    pub competitions: Map<u64, TradingCompetition>,
    pub scores: Map<(u64, AccountId), u128>,
    pub participants: Map<u64, Seq<AccountId>>,
    pub claimed: Map<(u64, AccountId), bool>,
}

/// The competitions of an exchange with the traders' scores.
pub struct CompetitionBook {
    pub(crate) counter: u64,
    pub(crate) competitions: Table<u64, TradingCompetition>,
    pub(crate) scores: Table<(u64, AccountId), u128>,
    pub(crate) participants: Table<u64, Vec<AccountId>>,
    pub(crate) claimed: Table<(u64, AccountId), bool>,
}

impl View for CompetitionBook {
    type V = CompetitionState;

    closed spec fn view(&self) -> CompetitionState {
        CompetitionState {
            counter: self.counter,
            competitions: self.competitions@,
            scores: self.scores@,
            participants: self.participants@.map_values(|v: Vec<AccountId>| v@),
            claimed: self.claimed@,
        }
    }
}

impl CompetitionBook {
    /// The tables' invariants.
    pub closed spec fn wf(&self) -> bool {
        &&& self.competitions.wf()
        &&& self.scores.wf()
        &&& self.participants.wf()
        &&& self.claimed.wf()
    }

    /// A book without competitions.
    pub fn new() -> (r: CompetitionBook)
        ensures
            r.wf(),
            r@.counter == 0,
            r@.competitions == Map::<u64, TradingCompetition>::empty(),
            r@.scores == Map::<(u64, AccountId), u128>::empty(),
            r@.participants == Map::<u64, Seq<AccountId>>::empty(),
            r@.claimed == Map::<(u64, AccountId), bool>::empty(),
    {
        let r = CompetitionBook {
            counter: 0,
            competitions: Table::new(),
            scores: Table::new(),
            participants: Table::new(),
            claimed: Table::new(),
        };
        assert(r@.participants =~= Map::<u64, Seq<AccountId>>::empty());
        r
    }
}

/// The traders of competition `id`, in the order they first scored.
pub open spec fn participants_of(c: CompetitionState, id: u64) -> Seq<AccountId> {
    get_or(c.participants, id, Seq::empty())
}

/// The score of `trader` in competition `id`.
pub open spec fn score_of(c: CompetitionState, id: u64, trader: AccountId) -> u128 {
    get0(c.scores, (id, trader))
}

/// Each participant of competition `id` with their score, in participant order.
pub open spec fn leaderboard(c: CompetitionState, id: u64) -> Seq<(AccountId, u128)> {
    participants_of(c, id).map_values(|a: AccountId| (a, score_of(c, id, a)))
}

/// The saturating sum of the scores of `traders` in competition `id`.
pub open spec fn score_sum(c: CompetitionState, id: u64, traders: Seq<AccountId>) -> u128
    decreases traders.len(),
{
    if traders.len() == 0 {
        0
    } else {
        sadd(score_sum(c, id, traders.drop_last()), score_of(c, id, traders.last()))
    }
}

/// The total score of competition `id`.
pub open spec fn total_score(c: CompetitionState, id: u64) -> u128 {
    score_sum(c, id, participants_of(c, id))
}

/// The share of the reward of competition `id` owed to `trader`: the reward scaled by
/// the trader's part of the total score (rounded down); none without a competition, a
/// score or a total.
pub open spec fn reward_share(c: CompetitionState, id: u64, trader: AccountId) -> Option<u128> {
    if !c.competitions.contains_key(id) || score_of(c, id, trader) == 0 || total_score(c, id) == 0 {
        None
    } else {
        Some(smul(c.competitions[id].reward_amount, score_of(c, id, trader)) / total_score(c, id))
    }
}

/// Whether `trader` claimed the reward of competition `id`.
pub open spec fn claimed_by(c: CompetitionState, id: u64, trader: AccountId) -> bool {
    get_or(c.claimed, (id, trader), false)
}

/// Whether competition `id` exists and is active.
pub open spec fn competition_active(c: CompetitionState, id: u64) -> bool {
    c.competitions.contains_key(id) && c.competitions[id].active
}

/// The competitions among ids 1 to `n`, in id order: all of them, or those titled
/// `title` when it is given.
pub open spec fn competitions_upto(c: CompetitionState, n: nat, title: Option<Seq<char>>) -> Seq<TradingCompetition>
    decreases n,
{
    if n == 0 {
        Seq::empty()
    } else {
        let prev = competitions_upto(c, (n - 1) as nat, title);
        let id = n as u64;
        if c.competitions.contains_key(id) && (title is None || c.competitions[id].title@ == title->0) {
            prev.push(c.competitions[id])
        } else {
            prev
        }
    }
}

/// Every competition, in id order.
pub open spec fn all_competitions(c: CompetitionState) -> Seq<TradingCompetition> {
    competitions_upto(c, c.counter as nat, None)
}

/// The competitions titled `title`, in id order.
pub open spec fn titled(c: CompetitionState, title: Seq<char>) -> Seq<TradingCompetition> {
    competitions_upto(c, c.counter as nat, Some(title))
}

/// Whether the entry at `j` of `board` ranks before the one at `i`: a higher score,
/// or an equal score earlier in the board.
pub open spec fn outranks(board: Seq<(AccountId, u128)>, j: int, i: int) -> bool {
    board[j].1 > board[i].1 || (board[j].1 == board[i].1 && j < i)
}

/// How many entries of `board` among the first `n` rank before the one at `i`.
pub open spec fn ahead_of(board: Seq<(AccountId, u128)>, i: int, n: int) -> nat
    decreases n,
{
    if n <= 0 {
        0
    } else {
        ahead_of(board, i, n - 1) + if outranks(board, n - 1, i) {
            1nat
        } else {
            0nat
        }
    }
}

/// Whether `trader` stands at position `i` of `board` and nowhere before it.
pub open spec fn first_at(board: Seq<(AccountId, u128)>, trader: AccountId, i: int) -> bool {
    &&& 0 <= i < board.len()
    &&& board[i].0 == trader
    &&& forall|j: int| 0 <= j < i ==> board[j].0 != trader
}

/// The 1-based place of `trader` on the leaderboard of competition `id` sorted by score,
/// highest first, ties kept in participant order; none when the trader is not on it.
pub open spec fn rank_of(c: CompetitionState, id: u64, trader: AccountId) -> Option<u64> {
    let board = leaderboard(c, id);
    if exists|i: int| first_at(board, trader, i) {
        let i = choose|i: int| first_at(board, trader, i);
        Some((ahead_of(board, i, board.len() as int) + 1) as u64)
    } else {
        None
    }
}

/// The book after `trader` scores `volume` in competition `id`, if it is an active
/// competition on `pair_id` (or on every pair): the trader joins its participants when
/// new, and the score grows by `volume` (saturating).
pub open spec fn score_step(c: CompetitionState, id: u64, pair_id: u64, trader: AccountId, volume: u128) -> CompetitionState {
    if !c.competitions.contains_key(id) || !c.competitions[id].active {
        c
    } else if c.competitions[id].pair_id is Some && c.competitions[id].pair_id->0 != pair_id {
        c
    } else {
        let ps = participants_of(c, id);
        CompetitionState {
            participants: if listed(ps, trader) {
                c.participants
            } else {
                c.participants.insert(id, ps.push(trader))
            },
            scores: c.scores.insert((id, trader), sadd(score_of(c, id, trader), volume)),
            ..c
        }
    }
}

/// The book after `trader` scores `volume` in competitions 1 to `n`.
pub open spec fn scored_upto(c: CompetitionState, pair_id: u64, trader: AccountId, volume: u128, n: nat) -> CompetitionState
    decreases n,
{
    if n == 0 {
        c
    } else {
        score_step(scored_upto(c, pair_id, trader, volume, (n - 1) as nat), n as u64, pair_id, trader, volume)
    }
}

/// The book after a swap by `trader` on `pair_id` that paid out `volume`.
pub open spec fn scored(c: CompetitionState, pair_id: u64, trader: AccountId, volume: u128) -> CompetitionState {
    scored_upto(c, pair_id, trader, volume, c.counter as nat)
}

proof fn lemma_scoring_keeps_competitions(c: CompetitionState, pair_id: u64, trader: AccountId, volume: u128, n: nat)
    ensures
        scored_upto(c, pair_id, trader, volume, n).competitions == c.competitions,
        scored_upto(c, pair_id, trader, volume, n).counter == c.counter,
    decreases n,
{
    if n > 0 {
        lemma_scoring_keeps_competitions(c, pair_id, trader, volume, (n - 1) as nat);
    }
}

impl PropertyDex {
    /// The competition book.
    pub closed spec fn competition_state(&self) -> CompetitionState {
        self.competitions@
    }

    fn participants_list(&self, id: u64) -> (r: Vec<AccountId>)
        requires
            self.competitions.wf(),
        ensures
            r@ == participants_of(self.competitions@, id),
    {
        match self.competitions.participants.get(&id) {
            Some(v) => {
                let c = v.clone();
                assert(c@ =~= v@);
                c
            },
            None => {
                let e: Vec<AccountId> = Vec::new();
                assert(e@ =~= Seq::<AccountId>::empty());
                e
            },
        }
    }

    /// Scores a swap by `trader` on `pair_id` that paid out `volume` in every active
    /// competition on that pair (or on every pair).
    pub(in crate::dex) fn update_trade_competition_score(&mut self, pair_id: u64, trader: AccountId, volume: u128)
        requires
            old(self).competitions.wf(),
        ensures
            final(self).competitions.wf(),
            final(self)@ == old(self)@,
            final(self).wf() <==> old(self).wf(),
            final(self).competition_state() == scored(old(self).competition_state(), pair_id, trader, volume),
    {
        let ghost c0 = self.competitions@;
        let n = self.competitions.counter;
        let mut i: u64 = 0;
        while i < n
            invariant
                self.competitions.wf(),
                self@ == old(self)@,
                self.wf() <==> old(self).wf(),
                n == c0.counter,
                i <= n,
                self.competitions@ == scored_upto(c0, pair_id, trader, volume, i as nat),
            decreases n - i,
        {
            proof {
                lemma_scoring_keeps_competitions(c0, pair_id, trader, volume, i as nat);
            }
            let id = i + 1;
            let ghost before = self.competitions@;
            let eligible = match self.competitions.competitions.get(&id) {
                Some(comp) => comp.active && match comp.pair_id {
                    Some(p) => p == pair_id,
                    None => true,
                },
                None => false,
            };
            if eligible {
                let mut ps = self.participants_list(id);
                if !is_listed(&ps, trader) {
                    ps.push(trader);
                    let ghost pv = ps@;
                    let ghost m0 = self.competitions.participants@;
                    self.competitions.participants.insert(id, ps);
                    assert(self.competitions.participants@.map_values(|v: Vec<AccountId>| v@) =~= m0.map_values(
                        |v: Vec<AccountId>| v@,
                    ).insert(id, pv));
                }
                let current = lookup_or(&self.competitions.scores, &(id, trader), 0u128);
                assert(current == score_of(before, id, trader));
                self.competitions.scores.insert((id, trader), sat_add(current, volume));
            }
            assert(self.competitions@ =~= score_step(before, id, pair_id, trader, volume));
            i = i + 1;
        }
    }

    fn competition_score_total(&self, id: u64) -> (r: u128)
        requires
            self.competitions.wf(),
        ensures
            r == total_score(self.competition_state(), id),
    {
        let ps = self.participants_list(id);
        let mut total: u128 = 0;
        let mut i: usize = 0;
        while i < ps.len()
            invariant
                self.competitions.wf(),
                ps@ == participants_of(self.competitions@, id),
                i <= ps@.len(),
                total == score_sum(self.competitions@, id, ps@.subrange(0, i as int)),
            decreases ps@.len() - i,
        {
            let s = lookup_or(&self.competitions.scores, &(id, ps[i]), 0u128);
            assert(ps@.subrange(0, i + 1).drop_last() =~= ps@.subrange(0, i as int));
            total = sat_add(total, s);
            i = i + 1;
        }
        assert(ps@.subrange(0, ps@.len() as int) =~= ps@);
        total
    }

    fn competition_leaderboard(&self, id: u64) -> (r: Vec<(AccountId, u128)>)
        requires
            self.competitions.wf(),
        ensures
            r@ == leaderboard(self.competition_state(), id),
    {
        let ps = self.participants_list(id);
        let mut out: Vec<(AccountId, u128)> = Vec::new();
        let mut i: usize = 0;
        while i < ps.len()
            invariant
                self.competitions.wf(),
                ps@ == participants_of(self.competitions@, id),
                i <= ps@.len(),
                out@ == leaderboard(self.competitions@, id).subrange(0, i as int),
            decreases ps@.len() - i,
        {
            let s = lookup_or(&self.competitions.scores, &(id, ps[i]), 0u128);
            out.push((ps[i], s));
            assert(out@ =~= leaderboard(self.competitions@, id).subrange(0, i + 1));
            i = i + 1;
        }
        assert(leaderboard(self.competitions@, id).subrange(0, ps@.len() as int) =~= leaderboard(
            self.competitions@,
            id,
        ));
        out
    }

    fn competitions_matching(&self, title: Option<&String>) -> (r: Vec<TradingCompetition>)
        requires
            self.competitions.wf(),
        ensures
            title is None ==> r@ == all_competitions(self.competition_state()),
            title is Some ==> r@ == titled(self.competition_state(), title->0@),
    {
        let ghost wanted_title = match title {
            Some(t) => Some(t@),
            None => None,
        };
        let n = self.competitions.counter;
        let mut out: Vec<TradingCompetition> = Vec::new();
        let mut i: u64 = 0;
        while i < n
            invariant
                self.competitions.wf(),
                n == self.competitions@.counter,
                i <= n,
                wanted_title == (match title {
                    Some(t) => Some(t@),
                    None => None,
                }),
                out@ == competitions_upto(self.competitions@, i as nat, wanted_title),
            decreases n - i,
        {
            let id = i + 1;
            match self.competitions.competitions.get(&id) {
                Some(comp) => {
                    let wanted = match title {
                        Some(t) => comp.title == *t,
                        None => true,
                    };
                    if wanted {
                        out.push(comp.copy());
                    }
                },
                None => {},
            }
            i = i + 1;
        }
        out
    }

    /// The leaderboard of competition `competition_id`.
    pub fn tally_competition_leaderboard(&self, competition_id: u64) -> (r: Vec<(AccountId, u128)>)
        requires
            self.wf(),
        ensures
            r@ == leaderboard(self.competition_state(), competition_id),
    {
        self.competition_leaderboard(competition_id)
    }

    /// Whether competition `competition_id` is active, with its start and end blocks.
    pub fn get_competition_status(&self, competition_id: u64) -> (r: Option<(bool, u64, u64)>)
        requires
            self.wf(),
        ensures
            r == (if self.competition_state().competitions.contains_key(competition_id) {
                let t = self.competition_state().competitions[competition_id];
                Some((t.active, t.start_block, t.end_block))
            } else {
                None
            }),
    {
        match self.competitions.competitions.get(&competition_id) {
            Some(t) => Some((t.active, t.start_block, t.end_block)),
            None => None,
        }
    }

    /// Whether `caller` claimed the reward of competition `competition_id`.
    pub fn get_competition_reward_state(&self, caller: AccountId, competition_id: u64) -> (r: Option<bool>)
        requires
            self.wf(),
        ensures
            r == Some(claimed_by(self.competition_state(), competition_id, caller)),
    {
        Some(lookup_or(&self.competitions.claimed, &(competition_id, caller), false))
    }

    /// The share of the reward of competition `competition_id` owed to `trader` (see
    /// [`reward_share`]).
    pub fn get_reward_share_for_trader(&self, competition_id: u64, trader: AccountId) -> (r: Option<u128>)
        requires
            self.wf(),
        ensures
            r == reward_share(self.competition_state(), competition_id, trader),
    {
        let reward = match self.competitions.competitions.get(&competition_id) {
            Some(t) => t.reward_amount,
            None => return None,
        };
        let score = lookup_or(&self.competitions.scores, &(competition_id, trader), 0u128);
        if score == 0 {
            return None;
        }
        let total = self.competition_score_total(competition_id);
        if total == 0 {
            return None;
        }
        Some(sat_mul(reward, score) / total)
    }

    /// The total score of competition `competition_id`.
    pub fn get_competition_total_score(&self, competition_id: u64) -> (r: u128)
        requires
            self.wf(),
        ensures
            r == total_score(self.competition_state(), competition_id),
    {
        self.competition_score_total(competition_id)
    }

    /// How many competitions were created.
    pub fn get_competition_count(&self) -> (r: u64)
        ensures
            r == self.competition_state().counter,
    {
        self.competitions.counter
    }

    /// Whether `trader` claimed the reward of competition `competition_id`.
    pub fn get_competition_participant_reward_status(&self, competition_id: u64, trader: AccountId) -> (r: bool)
        requires
            self.wf(),
        ensures
            r == claimed_by(self.competition_state(), competition_id, trader),
    {
        lookup_or(&self.competitions.claimed, &(competition_id, trader), false)
    }

    /// The governance tokens `trader` holds, in which competition rewards are paid.
    pub fn get_competition_reward_balance(&self, trader: AccountId) -> (r: u128)
        requires
            self.wf(),
        ensures
            r == get0(self@.governance_balances, trader),
    {
        lookup_or(&self.governance_balances, &trader, 0u128)
    }

    /// How many traders competition `competition_id` rewards, and the volume it asks of
    /// them.
    pub fn get_competition_settings(&self, competition_id: u64) -> (r: Option<(u32, u128)>)
        requires
            self.wf(),
        ensures
            r == (if self.competition_state().competitions.contains_key(competition_id) {
                let t = self.competition_state().competitions[competition_id];
                Some((t.top_n, t.min_trade_volume))
            } else {
                None
            }),
    {
        match self.competitions.competitions.get(&competition_id) {
            Some(t) => Some((t.top_n, t.min_trade_volume)),
            None => None,
        }
    }

    /// The competitions titled `title`, in id order.
    pub fn get_competition_details_by_title(&self, title: String) -> (r: Vec<TradingCompetition>)
        requires
            self.wf(),
        ensures
            r@ == titled(self.competition_state(), title@),
    {
        self.competitions_matching(Some(&title))
    }

    /// The reward of competition `competition_id` and whether it is active.
    pub fn get_competition_rewards_summary(&self, competition_id: u64) -> (r: Option<(u128, bool)>)
        requires
            self.wf(),
        ensures
            r == (if self.competition_state().competitions.contains_key(competition_id) {
                let t = self.competition_state().competitions[competition_id];
                Some((t.reward_amount, t.active))
            } else {
                None
            }),
    {
        match self.competitions.competitions.get(&competition_id) {
            Some(t) => Some((t.reward_amount, t.active)),
            None => None,
        }
    }

    /// Whether competition `competition_id` is active, its start and end blocks and its
    /// reward.
    pub fn get_competition_status_summary(&self, competition_id: u64) -> (r: Option<(bool, u64, u64, u128)>)
        requires
            self.wf(),
        ensures
            r == (if self.competition_state().competitions.contains_key(competition_id) {
                let t = self.competition_state().competitions[competition_id];
                Some((t.active, t.start_block, t.end_block, t.reward_amount))
            } else {
                None
            }),
    {
        match self.competitions.competitions.get(&competition_id) {
            Some(t) => Some((t.active, t.start_block, t.end_block, t.reward_amount)),
            None => None,
        }
    }

    /// The title, reward, start and end blocks of competition `competition_id`.
    pub fn get_competition_report(&self, competition_id: u64) -> (r: Option<(String, u128, u64, u64)>)
        requires
            self.wf(),
        ensures
            r == (if self.competition_state().competitions.contains_key(competition_id) {
                let t = self.competition_state().competitions[competition_id];
                Some((t.title, t.reward_amount, t.start_block, t.end_block))
            } else {
                None
            }),
    {
        match self.competitions.competitions.get(&competition_id) {
            Some(t) => Some((t.title.clone(), t.reward_amount, t.start_block, t.end_block)),
            None => None,
        }
    }

    /// The title of competition `competition_id`.
    pub fn get_competition_metadata(&self, competition_id: u64) -> (r: Option<String>)
        requires
            self.wf(),
        ensures
            r == (if self.competition_state().competitions.contains_key(competition_id) {
                Some(self.competition_state().competitions[competition_id].title)
            } else {
                None
            }),
    {
        match self.competitions.competitions.get(&competition_id) {
            Some(t) => Some(t.title.clone()),
            None => None,
        }
    }

    /// The score of `trader` in competition `competition_id` and whether they claimed
    /// its reward; none without a score.
    pub fn get_competition_summary_for_user(&self, competition_id: u64, trader: AccountId) -> (r: Option<(u128, bool)>)
        requires
            self.wf(),
        ensures
            r == (if score_of(self.competition_state(), competition_id, trader) == 0 {
                None
            } else {
                Some(
                    (
                        score_of(self.competition_state(), competition_id, trader),
                        claimed_by(self.competition_state(), competition_id, trader),
                    ),
                )
            }),
    {
        let score = lookup_or(&self.competitions.scores, &(competition_id, trader), 0u128);
        let claimed = lookup_or(&self.competitions.claimed, &(competition_id, trader), false);
        if score == 0 {
            None
        } else {
            Some((score, claimed))
        }
    }

    /// Each competition's id, whether it is active and its reward, in id order.
    pub fn get_competition_summary_all(&self) -> (r: Vec<(u64, bool, u128)>)
        requires
            self.wf(),
        ensures
            r@ == all_competitions(self.competition_state()).map_values(
                |t: TradingCompetition| (t.competition_id, t.active, t.reward_amount),
            ),
    {
        let all = self.competitions_matching(None);
        let mut out: Vec<(u64, bool, u128)> = Vec::new();
        let mut i: usize = 0;
        while i < all.len()
            invariant
                i <= all@.len(),
                out@ == all@.subrange(0, i as int).map_values(
                    |t: TradingCompetition| (t.competition_id, t.active, t.reward_amount),
                ),
            decreases all@.len() - i,
        {
            out.push((all[i].competition_id, all[i].active, all[i].reward_amount));
            assert(all@.subrange(0, i + 1) =~= all@.subrange(0, i as int).push(all@[i as int]));
            i = i + 1;
        }
        assert(all@.subrange(0, all@.len() as int) =~= all@);
        out
    }

    /// The final scores of competition `competition_id`: its leaderboard.
    pub fn get_competition_final_scores(&self, competition_id: u64) -> (r: Vec<(AccountId, u128)>)
        requires
            self.wf(),
        ensures
            r@ == leaderboard(self.competition_state(), competition_id),
    {
        self.competition_leaderboard(competition_id)
    }

    /// The trade volume competition `competition_id` asks of its traders.
    pub fn get_competition_trade_volume_goal(&self, competition_id: u64) -> (r: Option<u128>)
        requires
            self.wf(),
        ensures
            r == (if self.competition_state().competitions.contains_key(competition_id) {
                Some(self.competition_state().competitions[competition_id].min_trade_volume)
            } else {
                None
            }),
    {
        match self.competitions.competitions.get(&competition_id) {
            Some(t) => Some(t.min_trade_volume),
            None => None,
        }
    }

    /// The reward of competition `competition_id` and how many traders share it.
    pub fn get_competition_reward_distribution(&self, competition_id: u64) -> (r: Option<(u128, u32)>)
        requires
            self.wf(),
        ensures
            r == (if self.competition_state().competitions.contains_key(competition_id) {
                let t = self.competition_state().competitions[competition_id];
                Some((t.reward_amount, t.top_n))
            } else {
                None
            }),
    {
        match self.competitions.competitions.get(&competition_id) {
            Some(t) => Some((t.reward_amount, t.top_n)),
            None => None,
        }
    }

    /// The title of competition `competition_id`, whether it is active and its reward.
    pub fn get_competition_details_for_dashboard(&self, competition_id: u64) -> (r: Option<(String, bool, u128)>)
        requires
            self.wf(),
        ensures
            r == (if self.competition_state().competitions.contains_key(competition_id) {
                let t = self.competition_state().competitions[competition_id];
                Some((t.title, t.active, t.reward_amount))
            } else {
                None
            }),
    {
        match self.competitions.competitions.get(&competition_id) {
            Some(t) => Some((t.title.clone(), t.active, t.reward_amount)),
            None => None,
        }
    }

    /// Every competition, in id order.
    pub fn get_competition_history(&self) -> (r: Vec<TradingCompetition>)
        requires
            self.wf(),
        ensures
            r@ == all_competitions(self.competition_state()),
    {
        self.competitions_matching(None)
    }

    /// The title of competition `competition_id`, which serves as its description.
    pub fn get_competition_description(&self, competition_id: u64) -> (r: Option<String>)
        requires
            self.wf(),
        ensures
            r == (if self.competition_state().competitions.contains_key(competition_id) {
                Some(self.competition_state().competitions[competition_id].title)
            } else {
                None
            }),
    {
        match self.competitions.competitions.get(&competition_id) {
            Some(t) => Some(t.title.clone()),
            None => None,
        }
    }

    /// The place of `trader` in competition `competition_id` (see [`rank_of`]).
    pub fn get_competition_rank(&self, competition_id: u64, trader: AccountId) -> (r: Option<u64>)
        requires
            self.wf(),
        ensures
            r == rank_of(self.competition_state(), competition_id, trader),
    {
        let board = self.competition_leaderboard(competition_id);
        let ghost b = board@;
        let n = board.len();
        let mut i: usize = 0;
        while i < n
            invariant
                n == b.len(),
                board@ == b,
                b == leaderboard(self.competition_state(), competition_id),
                i <= n,
                forall|j: int| 0 <= j < i ==> b[j].0 != trader,
            decreases n - i,
        {
            if board[i].0 == trader {
                let mut ahead: u64 = 0;
                let mut j: usize = 0;
                while j < n
                    invariant
                        n == b.len(),
                        board@ == b,
                        b == leaderboard(self.competition_state(), competition_id),
                        i < n,
                        b[i as int].0 == trader,
                        forall|jj: int| 0 <= jj < i ==> b[jj].0 != trader,
                        j <= n,
                        ahead == ahead_of(b, i as int, j as int),
                        ahead + (if j > i {
                            1int
                        } else {
                            0int
                        }) <= j,
                    decreases n - j,
                {
                    if board[j].1 > board[i].1 || (board[j].1 == board[i].1 && j < i) {
                        ahead = ahead + 1;
                    }
                    j = j + 1;
                }
                proof {
                    assert(first_at(leaderboard(self.competition_state(), competition_id), trader, i as int));
                    let k = choose|k: int| first_at(leaderboard(self.competition_state(), competition_id), trader, k);
                    if k < i {
                        assert(b[k].0 != trader);
                    } else if k > i {
                        assert(b[i as int].0 != trader);
                    }
                    assert(k == i);
                }
                return Some(ahead + 1);
            }
            i = i + 1;
        }
        proof {
            if exists|k: int| first_at(b, trader, k) {
                let k = choose|k: int| first_at(b, trader, k);
                assert(b[k].0 != trader);
            }
        }
        None
    }

    /// The top scores of competition `competition_id`: its leaderboard.
    pub fn get_competition_top_scores(&self, competition_id: u64) -> (r: Vec<(AccountId, u128)>)
        requires
            self.wf(),
        ensures
            r@ == leaderboard(self.competition_state(), competition_id),
    {
        self.competition_leaderboard(competition_id)
    }

    /// Whether competition `competition_id` exists and is active.
    pub fn get_competition_active_status(&self, competition_id: u64) -> (r: bool)
        requires
            self.wf(),
        ensures
            r == competition_active(self.competition_state(), competition_id),
    {
        match self.competitions.competitions.get(&competition_id) {
            Some(t) => t.active,
            None => false,
        }
    }

    /// The admin of the exchange, who runs every competition.
    pub fn get_competition_admin(&self, _competition_id: u64) -> (r: AccountId)
        ensures
            r == self@.admin,
    {
        self.admin
    }
}

} // verus!
