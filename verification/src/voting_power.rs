//! Snapshot-based voting power: the power an account held at a proposal's block.
use vstd::prelude::*;

verus! {

/// A voter's power as recorded at a block.
#[derive(Clone, Copy, Debug, PartialEq, Eq, Structural)]
pub struct VoterSnapshot {
    pub block: u64,
    pub power: u128,
}

/// The power of the last snapshot in `s` taken at or before `proposal_block`, or 0.
pub open spec fn spec_power_at(s: Seq<VoterSnapshot>, proposal_block: u64) -> u128
    decreases s.len(),
{
    if s.len() == 0 {
        0
    } else if s.last().block <= proposal_block {
        s.last().power
    } else {
        spec_power_at(s.drop_last(), proposal_block)
    }
}

/// Voting power at `proposal_block`: the power of the last snapshot (in list
/// order) whose block is not after `proposal_block`; 0 when there is none.
pub fn power_at(snapshots: &[VoterSnapshot], proposal_block: u64) -> (r: u128)
    ensures
        r == spec_power_at(snapshots@, proposal_block),
{
    let n = snapshots.len();
    let mut result: u128 = 0;
    let mut i: usize = 0;
    while i < n
        invariant
            n == snapshots@.len(),
            i <= n,
            result == spec_power_at(snapshots@.subrange(0, i as int), proposal_block),
        decreases n - i,
    {
        let s = snapshots[i];
        proof {
            let pre = snapshots@.subrange(0, i as int);
            let post = snapshots@.subrange(0, i + 1);
            assert(post.drop_last() =~= pre);
            assert(post.last() == s);
        }
        if s.block <= proposal_block {
            result = s.power;
        }
        i = i + 1;
    }
    assert(snapshots@.subrange(0, n as int) =~= snapshots@);
    result
}

/// Snapshots taken after the proposal block never change the voting power:
/// appending a later snapshot leaves `power_at` unchanged.
pub proof fn lemma_later_snapshots_ignored(s: Seq<VoterSnapshot>, later: VoterSnapshot, proposal_block: u64)
    requires
        later.block > proposal_block,
    ensures
        spec_power_at(s.push(later), proposal_block) == spec_power_at(s, proposal_block),
{
    assert(s.push(later).drop_last() =~= s);
}

/// A snapshot at or before the proposal block, appended last, is the one that counts.
pub proof fn lemma_latest_eligible_snapshot_counts(
    s: Seq<VoterSnapshot>,
    latest: VoterSnapshot,
    proposal_block: u64,
)
    requires
        latest.block <= proposal_block,
    ensures
        spec_power_at(s.push(latest), proposal_block) == latest.power,
{
}

} // verus!
