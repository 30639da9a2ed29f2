use lib::voting_power::{power_at, VoterSnapshot};

#[test]
fn ignores_post_proposal_transfers() {
    let snaps = vec![
        VoterSnapshot { block: 10, power: 500 },
        VoterSnapshot { block: 20, power: 1000 },
    ];
    assert_eq!(power_at(&snaps, 15), 500);
}

#[test]
fn uses_latest_pre_proposal_value() {
    let snaps = vec![
        VoterSnapshot { block: 5, power: 200 },
        VoterSnapshot { block: 10, power: 800 },
    ];
    assert_eq!(power_at(&snaps, 10), 800);
}

#[test]
fn no_snapshot_before_proposal_returns_zero() {
    let snaps = vec![VoterSnapshot { block: 50, power: 500 }];
    assert_eq!(power_at(&snaps, 30), 0);
}

#[test]
fn staking_event_after_proposal_excluded() {
    let snaps = vec![
        VoterSnapshot { block: 100, power: 300 },
        VoterSnapshot { block: 200, power: 900 },
    ];
    assert_eq!(power_at(&snaps, 150), 300);
}

#[test]
fn empty_history_has_no_power() {
    assert_eq!(power_at(&[], 1), 0);
}

#[test]
fn list_order_decides_not_block_order() {
    let snaps = vec![
        VoterSnapshot { block: 9, power: 70 },
        VoterSnapshot { block: 3, power: 40 },
    ];
    assert_eq!(power_at(&snaps, 10), 40);
}
