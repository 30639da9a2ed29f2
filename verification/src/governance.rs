//! Multi-signature governance: signer-approved proposals with a timelock,
//! emergency proposals, quadratic voting, delegation and administrator rotation.
use vstd::prelude::*;

use crate::common::{
    get_or, lookup_or, new_rotation_request, rotation_request, sadd32, sadd64, ssub32, AccountId,
    Hash32, KeyRotationRequest, Table, KEY_ROTATION_EXPIRY_BLOCKS,
};
use crate::math::{floor_sqrt, isqrt};

verus! {

/// Most proposals that may be active at once.
pub const GOVERNANCE_MAX_ACTIVE_PROPOSALS: u32 = 10;

/// Most signers the council may have.
pub const GOVERNANCE_MAX_SIGNERS: u32 = 20;

/// Fewest signers the council may be reduced to.
pub const GOVERNANCE_MIN_SIGNERS: u32 = 1;

/// Quadratic-voting credits of a signer without an explicit budget.
pub const DEFAULT_SIGNER_CREDITS: u32 = 100;

/// Why a governance operation was refused.
#[derive(Clone, Copy, Debug, PartialEq, Eq, Structural)]
pub enum GovernanceError {
    Unauthorized,
    NotASigner,
    ProposalNotFound,
    ProposalClosed,
    AlreadyVoted,
    MaxProposals,
    InvalidThreshold,
    SignerExists,
    SignerNotFound,
    MinSigners,
    TimelockActive,
    ProposalExpired,
}

/// The kind of action a proposal asks for, as a numeric code.
#[derive(Clone, Copy, Debug, PartialEq, Eq, Structural)]
pub struct GovernanceAction {
    pub code: u32,
}

/// Where a proposal stands.
#[derive(Clone, Copy, Debug, PartialEq, Eq, Structural)]
pub enum ProposalStatus {
    Active,
    Approved,
    Executed,
    Rejected,
    Cancelled,
    Expired,
}

/// A governance proposal and its tally.
#[derive(Clone, Copy, Debug, PartialEq, Eq, Structural)]
pub struct GovernanceProposal {
    pub id: u64,
    pub proposer: AccountId,
    pub description_hash: Hash32,
    pub action_type: GovernanceAction,
    pub target: Option<AccountId>,
    pub threshold: u32,
    pub votes_for: u32,
    pub votes_against: u32,
    pub status: ProposalStatus,
    pub created_at: u64,
    pub executed_at: u64,
    pub timelock_until: u64,
    pub is_emergency: bool,
}

/// Proposal counts by outcome and the mean participation of closed proposals.
#[derive(Clone, Copy, Debug, PartialEq, Eq, Structural)]
pub struct GovernanceAnalytics {
    pub total_proposals: u64,
    pub executed_proposals: u64,
    pub rejected_proposals: u64,
    pub cancelled_proposals: u64,
    pub active_proposals: u64,
    pub avg_participation_bps: u32,
}

/// The abstract state of the governance contract.
#[verifier::ext_equal]
pub struct GovernanceState {
    pub admin: AccountId,
    pub signers: Seq<AccountId>,
    pub threshold: u32,
    pub proposal_counter: u64,
    pub active_proposal_count: u32,
    pub proposals: Map<u64, GovernanceProposal>,
    pub votes: Map<(u64, AccountId), bool>,
    pub timelock_blocks: u64,
    pub signer_public_keys: Map<AccountId, [u8; 33]>,
    pub pending_admin_rotation: Option<KeyRotationRequest>,
    pub governance_delegations: Map<AccountId, AccountId>,
    pub delegated_power: Map<AccountId, u32>,
    pub delegation_expiry: Map<(AccountId, AccountId), u64>,
    pub signer_credits: Map<AccountId, u32>,
    pub used_credits: Map<(u64, AccountId), u32>,
}

/// The governance contract.
pub struct Governance {
    admin: AccountId,
    signers: Vec<AccountId>,
    threshold: u32,
    proposal_counter: u64,
    active_proposal_count: u32,
    proposals: Table<u64, GovernanceProposal>,
    votes: Table<(u64, AccountId), bool>,
    timelock_blocks: u64,
    signer_public_keys: Table<AccountId, [u8; 33]>,
    pending_admin_rotation: Option<KeyRotationRequest>,
    governance_delegations: Table<AccountId, AccountId>,
    delegated_power: Table<AccountId, u32>,
    delegation_expiry: Table<(AccountId, AccountId), u64>,
    signer_credits: Table<AccountId, u32>,
    used_credits: Table<(u64, AccountId), u32>,
}

impl View for Governance {
    type V = GovernanceState;

    closed spec fn view(&self) -> GovernanceState {
        GovernanceState {
            admin: self.admin,
            signers: self.signers@,
            threshold: self.threshold,
            proposal_counter: self.proposal_counter,
            active_proposal_count: self.active_proposal_count,
            proposals: self.proposals@,
            votes: self.votes@,
            timelock_blocks: self.timelock_blocks,
            signer_public_keys: self.signer_public_keys@,
            pending_admin_rotation: self.pending_admin_rotation,
            governance_delegations: self.governance_delegations@,
            delegated_power: self.delegated_power@,
            delegation_expiry: self.delegation_expiry@,
            signer_credits: self.signer_credits@,
            used_credits: self.used_credits@,
        }
    }
}

/// `s` with each run of equal neighbours collapsed to one element.
pub open spec fn dedup_seq(s: Seq<AccountId>) -> Seq<AccountId>
    decreases s.len(),
{
    if s.len() == 0 {
        s
    } else {
        let d = dedup_seq(s.drop_last());
        if d.len() > 0 && d.last() == s.last() {
            d
        } else {
            d.push(s.last())
        }
    }
}

/// The threshold actually used: the requested one, or the signer count when the
/// request is 0 or exceeds it.
pub open spec fn safe_threshold(threshold: u32, signer_count: u32) -> u32 {
    if threshold == 0 || threshold > signer_count {
        signer_count
    } else {
        threshold
    }
}

/// The number of signers as a 32-bit count.
pub open spec fn signer_count(s: GovernanceState) -> u32 {
    s.signers.len() as u32
}

/// The new proposal numbered by the counter.
pub open spec fn new_proposal(
    s: GovernanceState,
    caller: AccountId,
    block: u32,
    description_hash: Hash32,
    action_type: GovernanceAction,
    target: Option<AccountId>,
    threshold: u32,
    is_emergency: bool,
) -> GovernanceProposal {
    GovernanceProposal {
        id: s.proposal_counter,
        proposer: caller,
        description_hash,
        action_type,
        target,
        threshold,
        votes_for: 0,
        votes_against: 0,
        status: ProposalStatus::Active,
        created_at: block as u64,
        executed_at: 0,
        timelock_until: 0,
        is_emergency,
    }
}

/// The proposal after a vote of `weight` and whether it became approved or rejected.
pub open spec fn tally_vote(
    p: GovernanceProposal,
    support: bool,
    weight: u32,
    block: u32,
    timelock_blocks: u64,
) -> GovernanceProposal {
    let counted = if support {
        GovernanceProposal { votes_for: sadd32(p.votes_for, weight), ..p }
    } else {
        GovernanceProposal { votes_against: sadd32(p.votes_against, weight), ..p }
    };
    if counted.votes_for >= counted.threshold {
        GovernanceProposal {
            status: ProposalStatus::Approved,
            timelock_until: if counted.is_emergency {
                block as u64
            } else {
                sadd64(block as u64, timelock_blocks)
            },
            ..counted
        }
    } else {
        counted
    }
}

/// A one-signer-one-vote tally cannot reach the threshold any more when even
/// all signers who have not voted could not lift the approvals to it.
pub open spec fn vote_rejects(p: GovernanceProposal, total_signers: u32) -> bool {
    let remaining = ssub32(total_signers, sadd32(p.votes_for, p.votes_against));
    sadd32(p.votes_for, remaining) < p.threshold
}

/// The first check a plain vote fails, if any.
pub open spec fn vote_error(s: GovernanceState, caller: AccountId, proposal_id: u64) -> Option<GovernanceError> {
    if !s.signers.contains(caller) {
        Some(GovernanceError::NotASigner)
    } else if !s.proposals.contains_key(proposal_id) {
        Some(GovernanceError::ProposalNotFound)
    } else if s.proposals[proposal_id].status != ProposalStatus::Active {
        Some(GovernanceError::ProposalClosed)
    } else if s.votes.contains_key((proposal_id, caller)) {
        Some(GovernanceError::AlreadyVoted)
    } else {
        None
    }
}

/// The state after `caller`'s vote: the vote is recorded, the tally grows by one,
/// the proposal may become approved (with its timelock) or rejected, and each
/// such closing lowers the active count.
pub open spec fn vote_next(s: GovernanceState, caller: AccountId, block: u32, proposal_id: u64, support: bool) -> GovernanceState {
    let p1 = tally_vote(s.proposals[proposal_id], support, 1, block, s.timelock_blocks);
    let approved = p1.status == ProposalStatus::Approved;
    let count1 = if approved {
        ssub32(s.active_proposal_count, 1)
    } else {
        s.active_proposal_count
    };
    let rejected = vote_rejects(p1, signer_count(s));
    let p2 = if rejected {
        GovernanceProposal { status: ProposalStatus::Rejected, ..p1 }
    } else {
        p1
    };
    GovernanceState {
        votes: s.votes.insert((proposal_id, caller), support),
        proposals: s.proposals.insert(proposal_id, p2),
        active_proposal_count: if rejected {
            ssub32(count1, 1)
        } else {
            count1
        },
        ..s
    }
}

/// Participation of a proposal in bips of the signer count.
pub open spec fn participation_bps(p: GovernanceProposal, signer_count: u64) -> u64 {
    let total_votes = sadd32(p.votes_for, p.votes_against) as u64;
    ((total_votes * 10_000) as u64) / signer_count
}

/// Running totals of the analytics over proposal ids `0..n`:
/// (executed, rejected, cancelled, active, participation sum, closed).
pub open spec fn tally_analytics(s: GovernanceState, n: nat) -> (u64, u64, u64, u64, u64, u64)
    decreases n,
{
    if n == 0 {
        (0, 0, 0, 0, 0, 0)
    } else {
        let t = tally_analytics(s, (n - 1) as nat);
        let id = (n - 1) as u64;
        let sc = s.signers.len() as u64;
        if !s.proposals.contains_key(id) {
            t
        } else {
            let p = s.proposals[id];
            let bump = if sc > 0 {
                sadd64(t.4, participation_bps(p, sc))
            } else {
                t.4
            };
            match p.status {
                ProposalStatus::Active | ProposalStatus::Approved => (
                    t.0,
                    t.1,
                    t.2,
                    (t.3 + 1) as u64,
                    t.4,
                    t.5,
                ),
                ProposalStatus::Executed => ((t.0 + 1) as u64, t.1, t.2, t.3, bump, (t.5 + 1) as u64),
                ProposalStatus::Rejected => (t.0, (t.1 + 1) as u64, t.2, t.3, bump, (t.5 + 1) as u64),
                ProposalStatus::Cancelled => (t.0, t.1, (t.2 + 1) as u64, t.3, t.4, t.5),
                ProposalStatus::Expired => (t.0, t.1, t.2, t.3, bump, (t.5 + 1) as u64),
            }
        }
    }
}

/// The analytics of `s`.
pub open spec fn spec_analytics(s: GovernanceState) -> GovernanceAnalytics {
    let t = tally_analytics(s, s.proposal_counter as nat);
    GovernanceAnalytics {
        total_proposals: s.proposal_counter,
        executed_proposals: t.0,
        rejected_proposals: t.1,
        cancelled_proposals: t.2,
        active_proposals: t.3,
        avg_participation_bps: if t.5 > 0 {
            (t.4 / t.5) as u32
        } else {
            0
        },
    }
}

proof fn lemma_tally_bounds(s: GovernanceState, n: nat)
    ensures
        ({
            let t = tally_analytics(s, n);
            t.0 + t.1 + t.2 + t.3 <= n && t.5 <= n
        }),
    decreases n,
{
    if n > 0 {
        lemma_tally_bounds(s, (n - 1) as nat);
    }
}

/// The position of the first occurrence of `a` in `s`.
pub open spec fn first_index(s: Seq<AccountId>, a: AccountId) -> int {
    choose|i: int| 0 <= i < s.len() && s[i] == a && forall|j: int| 0 <= j < i ==> s[j] != a
}

proof fn lemma_first_index(s: Seq<AccountId>, a: AccountId, i: int)
    requires
        0 <= i < s.len(),
        s[i] == a,
        forall|j: int| 0 <= j < i ==> s[j] != a,
    ensures
        first_index(s, a) == i,
{
    let c = first_index(s, a);
    assert(0 <= c < s.len() && s[c] == a && forall|j: int| 0 <= j < c ==> s[j] != a);
    if c < i {
        assert(s[c] != a);
    } else if c > i {
        assert(s[i] != a);
    }
}

/// Returns the index of the first occurrence of `a` in `v`.
pub fn position_of(v: &Vec<AccountId>, a: &AccountId) -> (r: Option<usize>)
    ensures
        match r {
            Some(i) => i < v@.len() && v@[i as int] == *a && forall|j: int|
                0 <= j < i ==> v@[j] != *a,
            None => !v@.contains(*a),
        },
{
    let n = v.len();
    let mut i: usize = 0;
    while i < n
        invariant
            n == v@.len(),
            i <= n,
            forall|j: int| 0 <= j < i ==> v@[j] != *a,
        decreases n - i,
    {
        if v[i] == *a {
            return Some(i);
        }
        i = i + 1;
    }
    None
}

/// Whether `v` contains `a`.
pub fn contains_account(v: &Vec<AccountId>, a: &AccountId) -> (r: bool)
    ensures
        r == v@.contains(*a),
{
    match position_of(v, a) {
        Some(i) => {
            assert(v@[i as int] == *a);
            true
        },
        None => false,
    }
}

/// Returns an element-by-element copy of `v`.
pub fn copy_accounts(v: &Vec<AccountId>) -> (r: Vec<AccountId>)
    ensures
        r@ == v@,
{
    let mut r: Vec<AccountId> = Vec::new();
    let n = v.len();
    let mut i: usize = 0;
    while i < n
        invariant
            n == v@.len(),
            i <= n,
            r@ == v@.subrange(0, i as int),
        decreases n - i,
    {
        r.push(v[i]);
        i = i + 1;
        assert(r@ =~= v@.subrange(0, i as int));
    }
    assert(v@.subrange(0, n as int) =~= v@);
    r
}

/// Collapses each run of equal neighbours in `v` to one element.
pub fn dedup_accounts(v: Vec<AccountId>) -> (r: Vec<AccountId>)
    ensures
        r@ == dedup_seq(v@),
{
    let mut r: Vec<AccountId> = Vec::new();
    let n = v.len();
    let mut i: usize = 0;
    while i < n
        invariant
            n == v@.len(),
            i <= n,
            r@ == dedup_seq(v@.subrange(0, i as int)),
        decreases n - i,
    {
        let a = v[i];
        proof {
            let pre = v@.subrange(0, i as int);
            let post = v@.subrange(0, i + 1);
            assert(post.drop_last() =~= pre);
            assert(post.last() == a);
        }
        let rl = r.len();
        if rl > 0 && r[rl - 1] == a {
        } else {
            r.push(a);
        }
        i = i + 1;
    }
    assert(v@.subrange(0, n as int) =~= v@);
    r
}

impl Governance {
    /// The tables' invariants.
    pub closed spec fn wf(&self) -> bool {
        &&& self.proposals.wf()
        &&& self.votes.wf()
        &&& self.signer_public_keys.wf()
        &&& self.governance_delegations.wf()
        &&& self.delegated_power.wf()
        &&& self.delegation_expiry.wf()
        &&& self.signer_credits.wf()
        &&& self.used_credits.wf()
    }

    /// A council of `signers` (runs of repeated neighbours collapsed) administered by
    /// `caller`, with the requested threshold (or the signer count when it is 0 or too
    /// large) and `timelock_blocks` between approval and execution.
    pub fn new(caller: AccountId, signers: Vec<AccountId>, threshold: u32, timelock_blocks: u64) -> (g: Governance)
        ensures
            g.wf(),
            g@ == (GovernanceState {
                admin: caller,
                signers: dedup_seq(signers@),
                threshold: safe_threshold(threshold, dedup_seq(signers@).len() as u32),
                proposal_counter: 0,
                active_proposal_count: 0,
                proposals: Map::empty(),
                votes: Map::empty(),
                timelock_blocks,
                signer_public_keys: Map::empty(),
                pending_admin_rotation: None,
                governance_delegations: Map::empty(),
                delegated_power: Map::empty(),
                delegation_expiry: Map::empty(),
                signer_credits: Map::empty(),
                used_credits: Map::empty(),
            }),
    {
        let unique = dedup_accounts(signers);
        let count = unique.len() as u32;
        let safe = if threshold == 0 || threshold > count {
            count
        } else {
            threshold
        };
        Governance {
            admin: caller,
            signers: unique,
            threshold: safe,
            proposal_counter: 0,
            active_proposal_count: 0,
            proposals: Table::new(),
            votes: Table::new(),
            timelock_blocks,
            signer_public_keys: Table::new(),
            pending_admin_rotation: None,
            governance_delegations: Table::new(),
            delegated_power: Table::new(),
            delegation_expiry: Table::new(),
            signer_credits: Table::new(),
            used_credits: Table::new(),
        }
    }

    /// The proposal `proposal_id`, if any.
    pub fn get_proposal(&self, proposal_id: u64) -> (r: Option<GovernanceProposal>)
        requires
            self.wf(),
        ensures
            r == (if self@.proposals.contains_key(proposal_id) {
                Some(self@.proposals[proposal_id])
            } else {
                None
            }),
    {
        match self.proposals.get(&proposal_id) {
            Some(p) => Some(*p),
            None => None,
        }
    }

    /// The signers.
    pub fn get_signers(&self) -> (r: Vec<AccountId>)
        ensures
            r@ == self@.signers,
    {
        copy_accounts(&self.signers)
    }

    /// The approval threshold.
    pub fn get_threshold(&self) -> (r: u32)
        ensures
            r == self@.threshold,
    {
        self.threshold
    }

    /// The administrator.
    pub fn get_admin(&self) -> (r: AccountId)
        ensures
            r == self@.admin,
    {
        self.admin
    }

    /// The number of active proposals.
    pub fn get_active_proposal_count(&self) -> (r: u32)
        ensures
            r == self@.active_proposal_count,
    {
        self.active_proposal_count
    }

    /// The delegate `delegator` has chosen, if any.
    pub fn get_delegate(&self, delegator: AccountId) -> (r: Option<AccountId>)
        requires
            self.wf(),
        ensures
            r == (if self@.governance_delegations.contains_key(delegator) {
                Some(self@.governance_delegations[delegator])
            } else {
                None
            }),
    {
        match self.governance_delegations.get(&delegator) {
            Some(d) => Some(*d),
            None => None,
        }
    }

    /// The number of delegations `delegate` holds.
    pub fn get_delegated_power(&self, delegate: AccountId) -> (r: u32)
        requires
            self.wf(),
        ensures
            r == get_or(self@.delegated_power, delegate, 0u32),
    {
        lookup_or(&self.delegated_power, &delegate, 0u32)
    }

    fn open_proposal(
        &mut self,
        caller: AccountId,
        block: u32,
        description_hash: Hash32,
        action_type: GovernanceAction,
        target: Option<AccountId>,
        threshold: u32,
        is_emergency: bool,
    ) -> (r: Result<u64, GovernanceError>)
        requires
            old(self).wf(),
        ensures
            final(self).wf(),
            r == (if !old(self)@.signers.contains(caller) {
                Err(GovernanceError::NotASigner)
            } else if old(self)@.active_proposal_count >= GOVERNANCE_MAX_ACTIVE_PROPOSALS {
                Err(GovernanceError::MaxProposals)
            } else {
                Ok(old(self)@.proposal_counter)
            }),
            r is Err ==> final(self)@ == old(self)@,
            r is Ok ==> final(self)@ == (GovernanceState {
                proposal_counter: sadd64(old(self)@.proposal_counter, 1),
                proposals: old(self)@.proposals.insert(
                    old(self)@.proposal_counter,
                    new_proposal(
                        old(self)@,
                        caller,
                        block,
                        description_hash,
                        action_type,
                        target,
                        threshold,
                        is_emergency,
                    ),
                ),
                active_proposal_count: sadd32(old(self)@.active_proposal_count, 1),
                ..old(self)@
            }),
    {
        if !contains_account(&self.signers, &caller) {
            return Err(GovernanceError::NotASigner);
        }
        if self.active_proposal_count >= GOVERNANCE_MAX_ACTIVE_PROPOSALS {
            return Err(GovernanceError::MaxProposals);
        }
        let proposal_id = self.proposal_counter;
        self.proposal_counter = self.proposal_counter.saturating_add(1);
        let proposal = GovernanceProposal {
            id: proposal_id,
            proposer: caller,
            description_hash,
            action_type,
            target,
            threshold,
            votes_for: 0,
            votes_against: 0,
            status: ProposalStatus::Active,
            created_at: block as u64,
            executed_at: 0,
            timelock_until: 0,
            is_emergency,
        };
        self.proposals.insert(proposal_id, proposal);
        self.active_proposal_count = self.active_proposal_count.saturating_add(1);
        Ok(proposal_id)
    }

    /// A signer opens a proposal needing the current threshold of approvals.
    pub fn create_proposal(
        &mut self,
        caller: AccountId,
        block: u32,
        description_hash: Hash32,
        action_type: GovernanceAction,
        target: Option<AccountId>,
    ) -> (r: Result<u64, GovernanceError>)
        requires
            old(self).wf(),
        ensures
            final(self).wf(),
            r == (if !old(self)@.signers.contains(caller) {
                Err(GovernanceError::NotASigner)
            } else if old(self)@.active_proposal_count >= GOVERNANCE_MAX_ACTIVE_PROPOSALS {
                Err(GovernanceError::MaxProposals)
            } else {
                Ok(old(self)@.proposal_counter)
            }),
            r is Err ==> final(self)@ == old(self)@,
            r is Ok ==> final(self)@ == (GovernanceState {
                proposal_counter: sadd64(old(self)@.proposal_counter, 1),
                proposals: old(self)@.proposals.insert(
                    old(self)@.proposal_counter,
                    new_proposal(
                        old(self)@,
                        caller,
                        block,
                        description_hash,
                        action_type,
                        target,
                        old(self)@.threshold,
                        false,
                    ),
                ),
                active_proposal_count: sadd32(old(self)@.active_proposal_count, 1),
                ..old(self)@
            }),
    {
        let threshold = self.threshold;
        self.open_proposal(caller, block, description_hash, action_type, target, threshold, false)
    }

    /// A signer opens an emergency proposal: it needs every signer's approval but
    /// skips the timelock.
    pub fn create_emergency_proposal(
        &mut self,
        caller: AccountId,
        block: u32,
        description_hash: Hash32,
        action_type: GovernanceAction,
        target: Option<AccountId>,
    ) -> (r: Result<u64, GovernanceError>)
        requires
            old(self).wf(),
        ensures
            final(self).wf(),
            r == (if !old(self)@.signers.contains(caller) {
                Err(GovernanceError::NotASigner)
            } else if old(self)@.active_proposal_count >= GOVERNANCE_MAX_ACTIVE_PROPOSALS {
                Err(GovernanceError::MaxProposals)
            } else {
                Ok(old(self)@.proposal_counter)
            }),
            r is Err ==> final(self)@ == old(self)@,
            r is Ok ==> final(self)@ == (GovernanceState {
                proposal_counter: sadd64(old(self)@.proposal_counter, 1),
                proposals: old(self)@.proposals.insert(
                    old(self)@.proposal_counter,
                    new_proposal(
                        old(self)@,
                        caller,
                        block,
                        description_hash,
                        action_type,
                        target,
                        signer_count(old(self)@),
                        true,
                    ),
                ),
                active_proposal_count: sadd32(old(self)@.active_proposal_count, 1),
                ..old(self)@
            }),
    {
        let emergency_threshold = self.signers.len() as u32;
        self.open_proposal(
            caller,
            block,
            description_hash,
            action_type,
            target,
            emergency_threshold,
            true,
        )
    }

    /// Counts proposals by outcome and averages the participation of closed ones.
    pub fn get_analytics(&self) -> (r: GovernanceAnalytics)
        requires
            self.wf(),
        ensures
            r == spec_analytics(self@),
    {
        let total = self.proposal_counter;
        let mut executed: u64 = 0;
        let mut rejected: u64 = 0;
        let mut cancelled: u64 = 0;
        let mut active: u64 = 0;
        let mut total_participation_bps: u64 = 0;
        let mut closed_count: u64 = 0;
        let signer_count = self.signers.len() as u64;
        let mut id: u64 = 0;
        while id < total
            invariant
                self.wf(),
                total == self@.proposal_counter,
                signer_count == self@.signers.len() as u64,
                id <= total,
                (executed, rejected, cancelled, active, total_participation_bps, closed_count)
                    == tally_analytics(self@, id as nat),
            decreases total - id,
        {
            proof {
                lemma_tally_bounds(self@, id as nat);
            }
            match self.proposals.get(&id) {
                Some(p) => {
                    let bps: u64 = if signer_count > 0 {
                        let total_votes = p.votes_for.saturating_add(p.votes_against) as u64;
                        (total_votes * 10_000) / signer_count
                    } else {
                        0
                    };
                    match p.status {
                        ProposalStatus::Active => {
                            active = active + 1;
                        },
                        ProposalStatus::Approved => {
                            active = active + 1;
                        },
                        ProposalStatus::Executed => {
                            executed = executed + 1;
                            closed_count = closed_count + 1;
                            if signer_count > 0 {
                                total_participation_bps = total_participation_bps.saturating_add(bps);
                            }
                        },
                        ProposalStatus::Rejected => {
                            rejected = rejected + 1;
                            closed_count = closed_count + 1;
                            if signer_count > 0 {
                                total_participation_bps = total_participation_bps.saturating_add(bps);
                            }
                        },
                        ProposalStatus::Cancelled => {
                            cancelled = cancelled + 1;
                        },
                        ProposalStatus::Expired => {
                            closed_count = closed_count + 1;
                            if signer_count > 0 {
                                total_participation_bps = total_participation_bps.saturating_add(bps);
                            }
                        },
                    }
                },
                None => {},
            }
            id = id + 1;
        }
        let avg_participation_bps: u32 = if closed_count > 0 {
            (total_participation_bps / closed_count) as u32
        } else {
            0
        };
        GovernanceAnalytics {
            total_proposals: total,
            executed_proposals: executed,
            rejected_proposals: rejected,
            cancelled_proposals: cancelled,
            active_proposals: active,
            avg_participation_bps,
        }
    }

    /// The participation of proposal `proposal_id` in bips of the signer count.
    pub fn get_proposal_participation(&self, proposal_id: u64) -> (r: Result<u32, GovernanceError>)
        requires
            self.wf(),
        ensures
            r == (if !self@.proposals.contains_key(proposal_id) {
                Err(GovernanceError::ProposalNotFound)
            } else if signer_count(self@) == 0 {
                Ok(0u32)
            } else {
                Ok(participation_bps(self@.proposals[proposal_id], signer_count(self@) as u64) as u32)
            }),
    {
        let proposal = match self.proposals.get(&proposal_id) {
            Some(p) => *p,
            None => return Err(GovernanceError::ProposalNotFound),
        };
        let count = self.signers.len() as u32;
        if count == 0 {
            return Ok(0);
        }
        let total_votes = proposal.votes_for.saturating_add(proposal.votes_against);
        let bps = ((total_votes as u64) * 10_000) / (count as u64);
        Ok(bps as u32)
    }
}


/// The first check a quadratic vote fails, if any.
pub open spec fn quadratic_error(s: GovernanceState, caller: AccountId, proposal_id: u64, credits_to_spend: u32) -> Option<
    GovernanceError,
> {
    if !s.signers.contains(caller) {
        Some(GovernanceError::NotASigner)
    } else if !s.proposals.contains_key(proposal_id) {
        Some(GovernanceError::ProposalNotFound)
    } else if s.proposals[proposal_id].status != ProposalStatus::Active {
        Some(GovernanceError::ProposalClosed)
    } else if credits_to_spend > remaining_credits(s, proposal_id, caller) {
        Some(GovernanceError::InvalidThreshold)
    } else if quadratic_weight(credits_to_spend) == 0 && credits_to_spend > 0 {
        Some(GovernanceError::InvalidThreshold)
    } else {
        None
    }
}

/// The credit budget of `signer`.
pub open spec fn credits_of(s: GovernanceState, signer: AccountId) -> u32 {
    get_or(s.signer_credits, signer, DEFAULT_SIGNER_CREDITS)
}

/// Credits `voter` has spent on `proposal_id`.
pub open spec fn used_of(s: GovernanceState, proposal_id: u64, voter: AccountId) -> u32 {
    get_or(s.used_credits, (proposal_id, voter), 0u32)
}

/// Credits `voter` may still spend on `proposal_id`.
pub open spec fn remaining_credits(s: GovernanceState, proposal_id: u64, voter: AccountId) -> u32 {
    ssub32(credits_of(s, voter), used_of(s, proposal_id, voter))
}

/// The weight bought with `credits`: the floor square root of the credits.
pub open spec fn quadratic_weight(credits: u32) -> u32 {
    floor_sqrt(credits as int) as u32
}

/// Under quadratic voting a proposal is rejected once its approvals plus a hundred
/// per other signer stay below the threshold.
pub open spec fn quadratic_rejects(p: GovernanceProposal, total_signers: u32) -> bool {
    sadd32(p.votes_for, (ssub32(total_signers, 1) * 100) as u32) < p.threshold
}

/// The state after a quadratic vote spending `credits_to_spend`.
pub open spec fn quadratic_next(
    s: GovernanceState,
    caller: AccountId,
    block: u32,
    proposal_id: u64,
    support: bool,
    credits_to_spend: u32,
) -> GovernanceState {
    let weight = quadratic_weight(credits_to_spend);
    let p1 = tally_vote(s.proposals[proposal_id], support, weight, block, s.timelock_blocks);
    let approved = p1.status == ProposalStatus::Approved;
    let count1 = if approved {
        ssub32(s.active_proposal_count, 1)
    } else {
        s.active_proposal_count
    };
    let rejected = quadratic_rejects(p1, signer_count(s));
    let p2 = if rejected {
        GovernanceProposal { status: ProposalStatus::Rejected, ..p1 }
    } else {
        p1
    };
    GovernanceState {
        used_credits: s.used_credits.insert(
            (proposal_id, caller),
            sadd32(used_of(s, proposal_id, caller), credits_to_spend),
        ),
        votes: if s.votes.contains_key((proposal_id, caller)) {
            s.votes
        } else {
            s.votes.insert((proposal_id, caller), support)
        },
        proposals: s.proposals.insert(proposal_id, p2),
        active_proposal_count: if rejected {
            ssub32(count1, 1)
        } else {
            count1
        },
        ..s
    }
}

/// The delegated-power table after `delegator` stops delegating to its current delegate.
pub open spec fn release_power(s: GovernanceState, delegator: AccountId) -> Map<AccountId, u32> {
    if s.governance_delegations.contains_key(delegator) {
        let old_delegate = s.governance_delegations[delegator];
        let old_power = get_or(s.delegated_power, old_delegate, 0u32);
        if old_power > 0 {
            s.delegated_power.insert(old_delegate, (old_power - 1) as u32)
        } else {
            s.delegated_power
        }
    } else {
        s.delegated_power
    }
}

/// The first check a delegation fails, if any.
pub open spec fn delegate_error(s: GovernanceState, caller: AccountId, delegate: AccountId) -> Option<GovernanceError> {
    if !s.signers.contains(caller) || !s.signers.contains(delegate) {
        Some(GovernanceError::NotASigner)
    } else if delegate == caller {
        Some(GovernanceError::InvalidThreshold)
    } else {
        None
    }
}

/// The state after `caller` delegates to `delegate`: the previous delegate loses one
/// unit of power, the new one gains one, and an expiry is set when one is given.
pub open spec fn delegate_next(
    s: GovernanceState,
    caller: AccountId,
    block: u32,
    delegate: AccountId,
    expiry_blocks: Option<u64>,
) -> GovernanceState {
    let p1 = release_power(s, caller);
    GovernanceState {
        governance_delegations: s.governance_delegations.insert(caller, delegate),
        delegated_power: p1.insert(delegate, (get_or(p1, delegate, 0u32) + 1) as u32),
        delegation_expiry: match expiry_blocks {
            Some(blocks) => s.delegation_expiry.insert((caller, delegate), sadd64(block as u64, blocks)),
            None => s.delegation_expiry,
        },
        ..s
    }
}

impl Governance {
    /// A signer votes once on an active proposal; reaching the threshold approves it
    /// (starting the timelock) and a threshold out of reach rejects it.
    pub fn vote(&mut self, caller: AccountId, block: u32, proposal_id: u64, support: bool) -> (r: Result<
        (),
        GovernanceError,
    >)
        requires
            old(self).wf(),
        ensures
            final(self).wf(),
            match vote_error(old(self)@, caller, proposal_id) {
                Some(e) => r == Err::<(), GovernanceError>(e) && final(self)@ == old(self)@,
                None => r == Ok::<(), GovernanceError>(()) && final(self)@ == vote_next(
                    old(self)@,
                    caller,
                    block,
                    proposal_id,
                    support,
                ),
            },
    {
        if !contains_account(&self.signers, &caller) {
            return Err(GovernanceError::NotASigner);
        }
        let mut proposal = match self.proposals.get(&proposal_id) {
            Some(p) => *p,
            None => return Err(GovernanceError::ProposalNotFound),
        };
        if proposal.status != ProposalStatus::Active {
            return Err(GovernanceError::ProposalClosed);
        }
        if self.votes.contains(&(proposal_id, caller)) {
            return Err(GovernanceError::AlreadyVoted);
        }
        self.votes.insert((proposal_id, caller), support);
        if support {
            proposal.votes_for = proposal.votes_for.saturating_add(1);
        } else {
            proposal.votes_against = proposal.votes_against.saturating_add(1);
        }
        if proposal.votes_for >= proposal.threshold {
            let now = block as u64;
            proposal.status = ProposalStatus::Approved;
            if proposal.is_emergency {
                proposal.timelock_until = now;
            } else {
                proposal.timelock_until = now.saturating_add(self.timelock_blocks);
            }
            self.active_proposal_count = self.active_proposal_count.saturating_sub(1);
        }
        let total_signers = self.signers.len() as u32;
        let total_votes = proposal.votes_for.saturating_add(proposal.votes_against);
        let remaining = total_signers.saturating_sub(total_votes);
        if proposal.votes_for.saturating_add(remaining) < proposal.threshold {
            proposal.status = ProposalStatus::Rejected;
            self.active_proposal_count = self.active_proposal_count.saturating_sub(1);
        }
        self.proposals.insert(proposal_id, proposal);
        assert(self@ =~= vote_next(old(self)@, caller, block, proposal_id, support));
        Ok(())
    }

    /// A signer records its public key.
    pub fn register_public_key(&mut self, caller: AccountId, public_key: [u8; 33]) -> (r: Result<(), GovernanceError>)
        requires
            old(self).wf(),
        ensures
            final(self).wf(),
            r == (if old(self)@.signers.contains(caller) {
                Ok(())
            } else {
                Err(GovernanceError::NotASigner)
            }),
            r is Ok ==> final(self)@ == (GovernanceState {
                signer_public_keys: old(self)@.signer_public_keys.insert(caller, public_key),
                ..old(self)@
            }),
            r is Err ==> final(self)@ == old(self)@,
    {
        if !contains_account(&self.signers, &caller) {
            return Err(GovernanceError::NotASigner);
        }
        self.signer_public_keys.insert(caller, public_key);
        Ok(())
    }

    /// A signer executes an approved proposal once its timelock has passed.
    pub fn execute_proposal(&mut self, caller: AccountId, block: u32, proposal_id: u64) -> (r: Result<
        (),
        GovernanceError,
    >)
        requires
            old(self).wf(),
        ensures
            final(self).wf(),
            r == (if !old(self)@.signers.contains(caller) {
                Err(GovernanceError::NotASigner)
            } else if !old(self)@.proposals.contains_key(proposal_id) {
                Err(GovernanceError::ProposalNotFound)
            } else if old(self)@.proposals[proposal_id].status != ProposalStatus::Approved {
                Err(GovernanceError::ProposalClosed)
            } else if (block as u64) < old(self)@.proposals[proposal_id].timelock_until {
                Err(GovernanceError::TimelockActive)
            } else {
                Ok(())
            }),
            r is Ok ==> final(self)@ == (GovernanceState {
                proposals: old(self)@.proposals.insert(
                    proposal_id,
                    GovernanceProposal {
                        status: ProposalStatus::Executed,
                        executed_at: block as u64,
                        ..old(self)@.proposals[proposal_id]
                    },
                ),
                ..old(self)@
            }),
            r is Err ==> final(self)@ == old(self)@,
    {
        if !contains_account(&self.signers, &caller) {
            return Err(GovernanceError::NotASigner);
        }
        let mut proposal = match self.proposals.get(&proposal_id) {
            Some(p) => *p,
            None => return Err(GovernanceError::ProposalNotFound),
        };
        if proposal.status != ProposalStatus::Approved {
            return Err(GovernanceError::ProposalClosed);
        }
        let now = block as u64;
        if now < proposal.timelock_until {
            return Err(GovernanceError::TimelockActive);
        }
        proposal.status = ProposalStatus::Executed;
        proposal.executed_at = now;
        self.proposals.insert(proposal_id, proposal);
        Ok(())
    }

    /// A signer spends credits on an active proposal for a weight equal to their
    /// floor square root; returns the weight.
    pub fn quadratic_vote(
        &mut self,
        caller: AccountId,
        block: u32,
        proposal_id: u64,
        support: bool,
        credits_to_spend: u32,
    ) -> (r: Result<u32, GovernanceError>)
        requires
            old(self).wf(),
            quadratic_error(old(self)@, caller, proposal_id, credits_to_spend) is None ==> ssub32(
                signer_count(old(self)@),
                1,
            ) * 100 <= u32::MAX,
        ensures
            final(self).wf(),
            match quadratic_error(old(self)@, caller, proposal_id, credits_to_spend) {
                Some(e) => r == Err::<u32, GovernanceError>(e) && final(self)@ == old(self)@,
                None => r == Ok::<u32, GovernanceError>(quadratic_weight(credits_to_spend))
                    && final(self)@ == quadratic_next(
                    old(self)@,
                    caller,
                    block,
                    proposal_id,
                    support,
                    credits_to_spend,
                ),
            },
    {
        if !contains_account(&self.signers, &caller) {
            return Err(GovernanceError::NotASigner);
        }
        let mut proposal = match self.proposals.get(&proposal_id) {
            Some(p) => *p,
            None => return Err(GovernanceError::ProposalNotFound),
        };
        if proposal.status != ProposalStatus::Active {
            return Err(GovernanceError::ProposalClosed);
        }
        let total_credits = lookup_or(&self.signer_credits, &caller, DEFAULT_SIGNER_CREDITS);
        let already_used = lookup_or(&self.used_credits, &(proposal_id, caller), 0u32);
        let remaining = total_credits.saturating_sub(already_used);
        if credits_to_spend > remaining {
            return Err(GovernanceError::InvalidThreshold);
        }
        let root = isqrt(credits_to_spend as u128);
        proof {
            assert(root * root <= credits_to_spend);
            assert(root <= credits_to_spend) by (nonlinear_arith)
                requires
                    root * root <= credits_to_spend,
                    root >= 0,
            ;
        }
        let voting_weight = root as u32;
        if voting_weight == 0 && credits_to_spend > 0 {
            return Err(GovernanceError::InvalidThreshold);
        }
        let new_used = already_used.saturating_add(credits_to_spend);
        self.used_credits.insert((proposal_id, caller), new_used);
        if !self.votes.contains(&(proposal_id, caller)) {
            self.votes.insert((proposal_id, caller), support);
        }
        if support {
            proposal.votes_for = proposal.votes_for.saturating_add(voting_weight);
        } else {
            proposal.votes_against = proposal.votes_against.saturating_add(voting_weight);
        }
        if proposal.votes_for >= proposal.threshold {
            let now = block as u64;
            proposal.status = ProposalStatus::Approved;
            if proposal.is_emergency {
                proposal.timelock_until = now;
            } else {
                proposal.timelock_until = now.saturating_add(self.timelock_blocks);
            }
            self.active_proposal_count = self.active_proposal_count.saturating_sub(1);
        }
        let total_signers = self.signers.len() as u32;
        let remaining_signers = total_signers.saturating_sub(1);
        if proposal.votes_for.saturating_add(remaining_signers * 100) < proposal.threshold {
            proposal.status = ProposalStatus::Rejected;
            self.active_proposal_count = self.active_proposal_count.saturating_sub(1);
        }
        self.proposals.insert(proposal_id, proposal);
        assert(self@ =~= quadratic_next(
            old(self)@,
            caller,
            block,
            proposal_id,
            support,
            credits_to_spend,
        ));
        Ok(voting_weight)
    }

    /// The credit budget of `signer` (100 unless set).
    pub fn get_signer_credits(&self, signer: AccountId) -> (r: u32)
        requires
            self.wf(),
        ensures
            r == credits_of(self@, signer),
    {
        lookup_or(&self.signer_credits, &signer, DEFAULT_SIGNER_CREDITS)
    }

    /// Credits `voter` has spent on `proposal_id`.
    pub fn get_used_credits(&self, proposal_id: u64, voter: AccountId) -> (r: u32)
        requires
            self.wf(),
        ensures
            r == used_of(self@, proposal_id, voter),
    {
        lookup_or(&self.used_credits, &(proposal_id, voter), 0u32)
    }

    /// Credits `voter` may still spend on `proposal_id`.
    pub fn get_remaining_credits(&self, proposal_id: u64, voter: AccountId) -> (r: u32)
        requires
            self.wf(),
        ensures
            r == remaining_credits(self@, proposal_id, voter),
    {
        let total = lookup_or(&self.signer_credits, &voter, DEFAULT_SIGNER_CREDITS);
        let used = lookup_or(&self.used_credits, &(proposal_id, voter), 0u32);
        total.saturating_sub(used)
    }

    /// The administrator sets a signer's credit budget (which must be positive).
    pub fn set_signer_credits(&mut self, caller: AccountId, signer: AccountId, credits: u32) -> (r: Result<
        (),
        GovernanceError,
    >)
        requires
            old(self).wf(),
        ensures
            final(self).wf(),
            r == (if caller != old(self)@.admin {
                Err(GovernanceError::Unauthorized)
            } else if credits == 0 {
                Err(GovernanceError::InvalidThreshold)
            } else {
                Ok(())
            }),
            r is Ok ==> final(self)@ == (GovernanceState {
                signer_credits: old(self)@.signer_credits.insert(signer, credits),
                ..old(self)@
            }),
            r is Err ==> final(self)@ == old(self)@,
    {
        if caller != self.admin {
            return Err(GovernanceError::Unauthorized);
        }
        if credits == 0 {
            return Err(GovernanceError::InvalidThreshold);
        }
        self.signer_credits.insert(signer, credits);
        Ok(())
    }

    /// Integer square root (floor) of a credit amount.
    pub fn integer_sqrt(value: u128) -> (r: u128)
        requires
            value < u128::MAX,
        ensures
            r == floor_sqrt(value as int),
    {
        isqrt(value)
    }

    fn release_delegation(&mut self, caller: AccountId)
        requires
            old(self).wf(),
        ensures
            final(self).wf(),
            final(self)@ == (GovernanceState {
                delegated_power: release_power(old(self)@, caller),
                ..old(self)@
            }),
    {
        match self.governance_delegations.get(&caller) {
            Some(d) => {
                let old_delegate = *d;
                let old_power = lookup_or(&self.delegated_power, &old_delegate, 0u32);
                if old_power > 0 {
                    self.delegated_power.insert(old_delegate, old_power - 1);
                }
            },
            None => {},
        }
    }

    /// A signer delegates its voting power to another signer, optionally until
    /// `expiry_blocks` after `block`.
    pub fn delegate_governance(
        &mut self,
        caller: AccountId,
        block: u32,
        delegate: AccountId,
        expiry_blocks: Option<u64>,
    ) -> (r: Result<(), GovernanceError>)
        requires
            old(self).wf(),
            delegate_error(old(self)@, caller, delegate) is None ==> get_or(
                release_power(old(self)@, caller),
                delegate,
                0u32,
            ) < u32::MAX,
        ensures
            final(self).wf(),
            match delegate_error(old(self)@, caller, delegate) {
                Some(e) => r == Err::<(), GovernanceError>(e) && final(self)@ == old(self)@,
                None => r == Ok::<(), GovernanceError>(()) && final(self)@ == delegate_next(
                    old(self)@,
                    caller,
                    block,
                    delegate,
                    expiry_blocks,
                ),
            },
    {
        if !contains_account(&self.signers, &caller) {
            return Err(GovernanceError::NotASigner);
        }
        if !contains_account(&self.signers, &delegate) {
            return Err(GovernanceError::NotASigner);
        }
        if delegate == caller {
            return Err(GovernanceError::InvalidThreshold);
        }
        self.release_delegation(caller);
        self.governance_delegations.insert(caller, delegate);
        let current_power = lookup_or(&self.delegated_power, &delegate, 0u32);
        self.delegated_power.insert(delegate, current_power + 1);
        match expiry_blocks {
            Some(blocks) => {
                let expiry = (block as u64).saturating_add(blocks);
                self.delegation_expiry.insert((caller, delegate), expiry);
            },
            None => {},
        }
        assert(self@ =~= delegate_next(old(self)@, caller, block, delegate, expiry_blocks));
        Ok(())
    }

    /// A signer withdraws its delegation, if it has one.
    pub fn undelegate_governance(&mut self, caller: AccountId) -> (r: Result<(), GovernanceError>)
        requires
            old(self).wf(),
        ensures
            final(self).wf(),
            r == (if old(self)@.signers.contains(caller) {
                Ok(())
            } else {
                Err(GovernanceError::NotASigner)
            }),
            r is Err ==> final(self)@ == old(self)@,
            r is Ok ==> final(self)@ == (GovernanceState {
                delegated_power: release_power(old(self)@, caller),
                delegation_expiry: if old(self)@.governance_delegations.contains_key(caller) {
                    old(self)@.delegation_expiry.remove(
                        (caller, old(self)@.governance_delegations[caller]),
                    )
                } else {
                    old(self)@.delegation_expiry
                },
                governance_delegations: old(self)@.governance_delegations.remove(caller),
                ..old(self)@
            }),
    {
        if !contains_account(&self.signers, &caller) {
            return Err(GovernanceError::NotASigner);
        }
        let current = match self.governance_delegations.get(&caller) {
            Some(d) => Some(*d),
            None => None,
        };
        self.release_delegation(caller);
        match current {
            Some(old_delegate) => {
                self.delegation_expiry.remove(&(caller, old_delegate));
            },
            None => {},
        }
        self.governance_delegations.remove(&caller);
        assert(self.delegation_expiry@ =~= (if old(self)@.governance_delegations.contains_key(caller) {
            old(self)@.delegation_expiry.remove((caller, old(self)@.governance_delegations[caller]))
        } else {
            old(self)@.delegation_expiry
        }));
        Ok(())
    }

    /// The proposer or the administrator cancels an active or approved proposal.
    pub fn cancel_proposal(&mut self, caller: AccountId, proposal_id: u64) -> (r: Result<(), GovernanceError>)
        requires
            old(self).wf(),
        ensures
            final(self).wf(),
            r == (if !old(self)@.proposals.contains_key(proposal_id) {
                Err(GovernanceError::ProposalNotFound)
            } else if old(self)@.proposals[proposal_id].status != ProposalStatus::Active
                && old(self)@.proposals[proposal_id].status != ProposalStatus::Approved {
                Err(GovernanceError::ProposalClosed)
            } else if caller != old(self)@.proposals[proposal_id].proposer && caller != old(self)@.admin {
                Err(GovernanceError::Unauthorized)
            } else {
                Ok(())
            }),
            r is Err ==> final(self)@ == old(self)@,
            r is Ok ==> final(self)@ == (GovernanceState {
                active_proposal_count: if old(self)@.proposals[proposal_id].status
                    == ProposalStatus::Active {
                    ssub32(old(self)@.active_proposal_count, 1)
                } else {
                    old(self)@.active_proposal_count
                },
                proposals: old(self)@.proposals.insert(
                    proposal_id,
                    GovernanceProposal {
                        status: ProposalStatus::Cancelled,
                        ..old(self)@.proposals[proposal_id]
                    },
                ),
                ..old(self)@
            }),
    {
        let mut proposal = match self.proposals.get(&proposal_id) {
            Some(p) => *p,
            None => return Err(GovernanceError::ProposalNotFound),
        };
        if proposal.status != ProposalStatus::Active && proposal.status != ProposalStatus::Approved {
            return Err(GovernanceError::ProposalClosed);
        }
        if caller != proposal.proposer && caller != self.admin {
            return Err(GovernanceError::Unauthorized);
        }
        if proposal.status == ProposalStatus::Active {
            self.active_proposal_count = self.active_proposal_count.saturating_sub(1);
        }
        proposal.status = ProposalStatus::Cancelled;
        self.proposals.insert(proposal_id, proposal);
        Ok(())
    }

    /// The administrator adds a signer not yet on the council, up to the maximum.
    pub fn add_signer(&mut self, caller: AccountId, new_signer: AccountId) -> (r: Result<(), GovernanceError>)
        requires
            old(self).wf(),
        ensures
            final(self).wf(),
            r == (if caller != old(self)@.admin {
                Err(GovernanceError::Unauthorized)
            } else if old(self)@.signers.contains(new_signer) {
                Err(GovernanceError::SignerExists)
            } else if signer_count(old(self)@) >= GOVERNANCE_MAX_SIGNERS {
                Err(GovernanceError::MaxProposals)
            } else {
                Ok(())
            }),
            r is Err ==> final(self)@ == old(self)@,
            r is Ok ==> final(self)@ == (GovernanceState {
                signers: old(self)@.signers.push(new_signer),
                ..old(self)@
            }),
    {
        if caller != self.admin {
            return Err(GovernanceError::Unauthorized);
        }
        if contains_account(&self.signers, &new_signer) {
            return Err(GovernanceError::SignerExists);
        }
        if self.signers.len() as u32 >= GOVERNANCE_MAX_SIGNERS {
            return Err(GovernanceError::MaxProposals);
        }
        self.signers.push(new_signer);
        Ok(())
    }

    /// The administrator removes a signer (moving the last signer into its place) and
    /// lowers the threshold to the new signer count if it now exceeds it.
    pub fn remove_signer(&mut self, caller: AccountId, signer: AccountId) -> (r: Result<(), GovernanceError>)
        requires
            old(self).wf(),
        ensures
            final(self).wf(),
            r == (if caller != old(self)@.admin {
                Err(GovernanceError::Unauthorized)
            } else if signer_count(old(self)@) <= GOVERNANCE_MIN_SIGNERS {
                Err(GovernanceError::MinSigners)
            } else if !old(self)@.signers.contains(signer) {
                Err(GovernanceError::SignerNotFound)
            } else {
                Ok(())
            }),
            r is Err ==> final(self)@ == old(self)@,
            r is Ok ==> {
                let pos = first_index(old(self)@.signers, signer);
                let rest = old(self)@.signers.update(pos, old(self)@.signers.last()).drop_last();
                final(self)@ == (GovernanceState {
                    signers: rest,
                    threshold: if old(self)@.threshold > rest.len() as u32 {
                        rest.len() as u32
                    } else {
                        old(self)@.threshold
                    },
                    ..old(self)@
                })
            },
    {
        if caller != self.admin {
            return Err(GovernanceError::Unauthorized);
        }
        if self.signers.len() as u32 <= GOVERNANCE_MIN_SIGNERS {
            return Err(GovernanceError::MinSigners);
        }
        let pos = match position_of(&self.signers, &signer) {
            Some(i) => i,
            None => return Err(GovernanceError::SignerNotFound),
        };
        proof {
            lemma_first_index(old(self)@.signers, signer, pos as int);
        }
        self.signers.swap_remove(pos);
        let new_count = self.signers.len() as u32;
        if self.threshold > new_count {
            self.threshold = new_count;
        }
        Ok(())
    }

    /// The administrator sets a threshold between 1 and the signer count.
    pub fn update_threshold(&mut self, caller: AccountId, new_threshold: u32) -> (r: Result<(), GovernanceError>)
        requires
            old(self).wf(),
        ensures
            final(self).wf(),
            r == (if caller != old(self)@.admin {
                Err(GovernanceError::Unauthorized)
            } else if new_threshold == 0 || new_threshold > signer_count(old(self)@) {
                Err(GovernanceError::InvalidThreshold)
            } else {
                Ok(())
            }),
            r is Err ==> final(self)@ == old(self)@,
            r is Ok ==> final(self)@ == (GovernanceState { threshold: new_threshold, ..old(self)@ }),
    {
        if caller != self.admin {
            return Err(GovernanceError::Unauthorized);
        }
        if new_threshold == 0 || new_threshold > self.signers.len() as u32 {
            return Err(GovernanceError::InvalidThreshold);
        }
        self.threshold = new_threshold;
        Ok(())
    }

    /// The administrator forces a proposal that is not executed or cancelled to be
    /// executed (at `block`) or rejected.
    pub fn emergency_override(&mut self, caller: AccountId, block: u32, proposal_id: u64, execute: bool) -> (r:
        Result<(), GovernanceError>)
        requires
            old(self).wf(),
        ensures
            final(self).wf(),
            r == (if caller != old(self)@.admin {
                Err(GovernanceError::Unauthorized)
            } else if !old(self)@.proposals.contains_key(proposal_id) {
                Err(GovernanceError::ProposalNotFound)
            } else if old(self)@.proposals[proposal_id].status == ProposalStatus::Executed
                || old(self)@.proposals[proposal_id].status == ProposalStatus::Cancelled {
                Err(GovernanceError::ProposalClosed)
            } else {
                Ok(())
            }),
            r is Err ==> final(self)@ == old(self)@,
            r is Ok ==> final(self)@ == (GovernanceState {
                active_proposal_count: if old(self)@.proposals[proposal_id].status
                    == ProposalStatus::Active {
                    ssub32(old(self)@.active_proposal_count, 1)
                } else {
                    old(self)@.active_proposal_count
                },
                proposals: old(self)@.proposals.insert(
                    proposal_id,
                    if execute {
                        GovernanceProposal {
                            status: ProposalStatus::Executed,
                            executed_at: block as u64,
                            ..old(self)@.proposals[proposal_id]
                        }
                    } else {
                        GovernanceProposal {
                            status: ProposalStatus::Rejected,
                            ..old(self)@.proposals[proposal_id]
                        }
                    },
                ),
                ..old(self)@
            }),
    {
        if caller != self.admin {
            return Err(GovernanceError::Unauthorized);
        }
        let mut proposal = match self.proposals.get(&proposal_id) {
            Some(p) => *p,
            None => return Err(GovernanceError::ProposalNotFound),
        };
        if proposal.status == ProposalStatus::Executed || proposal.status == ProposalStatus::Cancelled {
            return Err(GovernanceError::ProposalClosed);
        }
        if proposal.status == ProposalStatus::Active {
            self.active_proposal_count = self.active_proposal_count.saturating_sub(1);
        }
        if execute {
            proposal.status = ProposalStatus::Executed;
            proposal.executed_at = block as u64;
        } else {
            proposal.status = ProposalStatus::Rejected;
        }
        self.proposals.insert(proposal_id, proposal);
        Ok(())
    }

    /// The administrator nominates `new_admin`, replacing any pending nomination.
    pub fn request_admin_rotation(&mut self, caller: AccountId, block: u32, new_admin: AccountId) -> (r: Result<
        (),
        GovernanceError,
    >)
        requires
            old(self).wf(),
        ensures
            final(self).wf(),
            r == (if caller != old(self)@.admin {
                Err(GovernanceError::Unauthorized)
            } else {
                Ok(())
            }),
            r is Err ==> final(self)@ == old(self)@,
            r is Ok ==> final(self)@ == (GovernanceState {
                pending_admin_rotation: Some(rotation_request(caller, new_admin, block)),
                ..old(self)@
            }),
    {
        if caller != self.admin {
            return Err(GovernanceError::Unauthorized);
        }
        self.pending_admin_rotation = Some(new_rotation_request(caller, new_admin, block));
        Ok(())
    }

    /// The nominee takes over between the end of the cooldown and the expiry; a late
    /// confirmation drops the request.
    pub fn confirm_admin_rotation(&mut self, caller: AccountId, block: u32) -> (r: Result<(), GovernanceError>)
        requires
            old(self).wf(),
        ensures
            final(self).wf(),
            match old(self)@.pending_admin_rotation {
                None => r == Err::<(), GovernanceError>(GovernanceError::ProposalNotFound)
                    && final(self)@ == old(self)@,
                Some(req) => if req.new_account != caller {
                    r == Err::<(), GovernanceError>(GovernanceError::Unauthorized) && final(self)@
                        == old(self)@
                } else if block < req.effective_at {
                    r == Err::<(), GovernanceError>(GovernanceError::TimelockActive) && final(self)@
                        == old(self)@
                } else if block > sadd32(req.effective_at, KEY_ROTATION_EXPIRY_BLOCKS) {
                    r == Err::<(), GovernanceError>(GovernanceError::ProposalExpired) && final(self)@
                        == (GovernanceState { pending_admin_rotation: None, ..old(self)@ })
                } else {
                    r == Ok::<(), GovernanceError>(()) && final(self)@ == (GovernanceState {
                        admin: caller,
                        pending_admin_rotation: None,
                        ..old(self)@
                    })
                },
            },
    {
        let request = match self.pending_admin_rotation {
            Some(req) => req,
            None => return Err(GovernanceError::ProposalNotFound),
        };
        if request.new_account != caller {
            return Err(GovernanceError::Unauthorized);
        }
        if block < request.effective_at {
            return Err(GovernanceError::TimelockActive);
        }
        let expiry = request.effective_at.saturating_add(KEY_ROTATION_EXPIRY_BLOCKS);
        if block > expiry {
            self.pending_admin_rotation = None;
            return Err(GovernanceError::ProposalExpired);
        }
        self.admin = caller;
        self.pending_admin_rotation = None;
        Ok(())
    }

    /// The old or the nominated administrator withdraws a pending rotation.
    pub fn cancel_admin_rotation(&mut self, caller: AccountId) -> (r: Result<(), GovernanceError>)
        requires
            old(self).wf(),
        ensures
            final(self).wf(),
            r == (match old(self)@.pending_admin_rotation {
                None => Err(GovernanceError::ProposalNotFound),
                Some(req) => if caller != req.old_account && caller != req.new_account {
                    Err(GovernanceError::Unauthorized)
                } else {
                    Ok(())
                },
            }),
            r is Err ==> final(self)@ == old(self)@,
            r is Ok ==> final(self)@ == (GovernanceState { pending_admin_rotation: None, ..old(self)@ }),
    {
        let request = match self.pending_admin_rotation {
            Some(req) => req,
            None => return Err(GovernanceError::ProposalNotFound),
        };
        if caller != request.old_account && caller != request.new_account {
            return Err(GovernanceError::Unauthorized);
        }
        self.pending_admin_rotation = None;
        Ok(())
    }
}

/// A signer can vote only once on a proposal: after a successful vote the same
/// signer's next vote on it is refused.
pub proof fn lemma_no_double_vote(s: GovernanceState, caller: AccountId, block: u32, proposal_id: u64, support: bool)
    requires
        vote_error(s, caller, proposal_id) is None,
    ensures
        vote_error(vote_next(s, caller, block, proposal_id, support), caller, proposal_id) is Some,
{
    let t = vote_next(s, caller, block, proposal_id, support);
    assert(t.votes.contains_key((proposal_id, caller)));
}

/// A signer's vote on an active proposal approves it exactly when the votes in favour
/// reach its threshold: a vote against adds nothing in favour, so it never approves a
/// proposal that was short of its threshold.
pub proof fn lemma_vote_approves_only_at_threshold(
    s: GovernanceState,
    caller: AccountId,
    block: u32,
    proposal_id: u64,
    support: bool,
)
    requires
        s.proposals.contains_key(proposal_id),
        s.proposals[proposal_id].status == ProposalStatus::Active,
    ensures
        ({
            let p = s.proposals[proposal_id];
            let q = vote_next(s, caller, block, proposal_id, support).proposals[proposal_id];
            &&& q.threshold == p.threshold
            &&& (q.status == ProposalStatus::Approved) == (q.votes_for >= p.threshold)
            &&& !support ==> q.votes_for == p.votes_for
            &&& support ==> q.votes_for >= p.votes_for
            &&& !support && p.votes_for < p.threshold ==> q.status != ProposalStatus::Approved
        }),
{
}

/// The same holds of a quadratic vote: the proposal is approved exactly when the
/// weighted votes in favour reach its threshold, and a vote against never approves a
/// proposal that was short of it.
pub proof fn lemma_quadratic_vote_approves_only_at_threshold(
    s: GovernanceState,
    caller: AccountId,
    block: u32,
    proposal_id: u64,
    support: bool,
    credits_to_spend: u32,
)
    requires
        s.proposals.contains_key(proposal_id),
        s.proposals[proposal_id].status == ProposalStatus::Active,
    ensures
        ({
            let p = s.proposals[proposal_id];
            let q = quadratic_next(s, caller, block, proposal_id, support, credits_to_spend).proposals[proposal_id];
            &&& q.threshold == p.threshold
            &&& (q.status == ProposalStatus::Approved) == (q.votes_for >= p.threshold)
            &&& !support ==> q.votes_for == p.votes_for
            &&& !support && p.votes_for < p.threshold ==> q.status != ProposalStatus::Approved
        }),
{
}

/// Reaching the threshold approves a non-emergency proposal and starts its
/// timelock at `block + timelock`; an emergency proposal may execute at once.
pub proof fn lemma_approval_timelock(p: GovernanceProposal, block: u32, timelock_blocks: u64)
    requires
        p.status == ProposalStatus::Active,
        sadd32(p.votes_for, 1) >= p.threshold,
    ensures
        tally_vote(p, true, 1, block, timelock_blocks).status == ProposalStatus::Approved,
        !p.is_emergency ==> tally_vote(p, true, 1, block, timelock_blocks).timelock_until == sadd64(
            block as u64,
            timelock_blocks,
        ),
        p.is_emergency ==> tally_vote(p, true, 1, block, timelock_blocks).timelock_until == block as u64,
{
}

/// Quadratic weights are square roots: `w*w` credits are needed for weight `w`.
pub proof fn lemma_quadratic_weight_cost(w: u32)
    requires
        w * w <= u32::MAX,
    ensures
        quadratic_weight((w * w) as u32) == w,
{
    assert((w + 1) * (w + 1) > w * w) by (nonlinear_arith)
        requires
            w >= 0,
    ;
    crate::math::lemma_floor_sqrt_is(w as int, (w * w) as int);
}

} // verus!
