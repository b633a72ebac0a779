use oracle_staking::Address;
use oracle_staking::NodeStake;
use oracle_staking::SlashEvent;
use oracle_staking::StakeEvent;
use oracle_staking::StakingError;
use oracle_staking::StakingPool;
use oracle_staking::UnstakeEvent;
use oracle_staking::initialize;
use oracle_staking::slash_node;
use oracle_staking::stake;
use oracle_staking::unstake;

const AUTH: Address = Address { id: 900 };
const NODE_A: Address = Address { id: 1 };
const NODE_B: Address = Address { id: 2 };

#[test]
fn initialize_sets_fields() {
    let pool = initialize(AUTH, 100, 254);
    assert_eq!(pool.authority, AUTH);
    assert_eq!(pool.min_stake, 100);
    assert_eq!(pool.total_staked, 0);
    assert_eq!(pool.total_nodes, 0);
    assert_eq!(pool.bump, 254);
}

#[test]
fn fresh_record_is_inert() {
    let r = NodeStake::fresh(NODE_A);
    assert_eq!(r.node_address, NODE_A);
    assert_eq!(r.amount, 0);
    assert_eq!(r.staked_at, 0);
    assert_eq!(r.last_update, 0);
}

#[test]
fn first_deposit_activates_record() {
    let mut pool = initialize(AUTH, 100, 254);
    let mut rec = NodeStake::fresh(NODE_A);
    let ev = stake(&mut pool, &mut rec, NODE_A, 150, 10).unwrap();
    assert_eq!(pool.total_staked, 150);
    assert_eq!(pool.total_nodes, 1);
    assert_eq!(rec.amount, 150);
    assert_eq!(rec.node_address, NODE_A);
    assert_eq!(rec.staked_at, 10);
    assert_eq!(rec.last_update, 10);
    assert_eq!(
        ev,
        StakeEvent { node: NODE_A, amount: 150, total_staked: 150, timestamp: 10 }
    );
}

#[test]
fn second_deposit_keeps_staked_at_and_node_count() {
    let mut pool = initialize(AUTH, 100, 254);
    let mut rec = NodeStake::fresh(NODE_A);
    stake(&mut pool, &mut rec, NODE_A, 150, 10).unwrap();
    let ev = stake(&mut pool, &mut rec, NODE_A, 100, 20).unwrap();
    assert_eq!(pool.total_staked, 250);
    assert_eq!(pool.total_nodes, 1);
    assert_eq!(rec.amount, 250);
    assert_eq!(rec.staked_at, 10);
    assert_eq!(rec.last_update, 20);
    assert_eq!(ev.total_staked, 250);
}

#[test]
fn deposit_below_minimum_rejected_state_unchanged() {
    let mut pool = initialize(AUTH, 100, 254);
    let mut rec = NodeStake::fresh(NODE_A);
    stake(&mut pool, &mut rec, NODE_A, 150, 10).unwrap();
    let before_pool = pool;
    let before_rec = rec;
    let r = stake(&mut pool, &mut rec, NODE_A, 99, 11);
    assert_eq!(r, Err(StakingError::InsufficientStake));
    assert_eq!(pool, before_pool);
    assert_eq!(rec, before_rec);
}

#[test]
fn deposit_at_exact_minimum_accepted() {
    let mut pool = initialize(AUTH, 100, 254);
    let mut rec = NodeStake::fresh(NODE_A);
    assert!(stake(&mut pool, &mut rec, NODE_A, 100, 10).is_ok());
    assert_eq!(rec.amount, 100);
}

#[test]
fn zero_minimum_means_no_minimum() {
    let mut pool = initialize(AUTH, 0, 254);
    let mut rec = NodeStake::fresh(NODE_A);
    assert!(stake(&mut pool, &mut rec, NODE_A, 1, 10).is_ok());
    assert_eq!(pool.total_staked, 1);
    assert_eq!(pool.total_nodes, 1);
}

#[test]
fn partial_withdrawal_keeps_record_active() {
    let mut pool = initialize(AUTH, 100, 254);
    let mut rec = NodeStake::fresh(NODE_A);
    stake(&mut pool, &mut rec, NODE_A, 150, 10).unwrap();
    let ev = unstake(&mut pool, &mut rec, NODE_A, 50, 20).unwrap();
    assert_eq!(pool.total_staked, 100);
    assert_eq!(pool.total_nodes, 1);
    assert_eq!(rec.amount, 100);
    assert_eq!(rec.last_update, 20);
    assert_eq!(
        ev,
        UnstakeEvent { node: NODE_A, amount: 50, remaining_stake: 100, timestamp: 20 }
    );
}

#[test]
fn full_withdrawal_deactivates_record() {
    let mut pool = initialize(AUTH, 100, 254);
    let mut rec = NodeStake::fresh(NODE_A);
    stake(&mut pool, &mut rec, NODE_A, 150, 10).unwrap();
    let ev = unstake(&mut pool, &mut rec, NODE_A, 150, 20).unwrap();
    assert_eq!(pool.total_staked, 0);
    assert_eq!(pool.total_nodes, 0);
    assert_eq!(rec.amount, 0);
    assert_eq!(ev.remaining_stake, 0);
    // the record stays, inert, with its history
    assert_eq!(rec.node_address, NODE_A);
    assert_eq!(rec.staked_at, 10);
}

#[test]
fn overdraw_rejected_state_unchanged() {
    let mut pool = initialize(AUTH, 100, 254);
    let mut rec = NodeStake::fresh(NODE_A);
    stake(&mut pool, &mut rec, NODE_A, 150, 10).unwrap();
    let before_pool = pool;
    let before_rec = rec;
    let r = unstake(&mut pool, &mut rec, NODE_A, 151, 20);
    assert_eq!(r, Err(StakingError::InsufficientBalance));
    assert_eq!(pool, before_pool);
    assert_eq!(rec, before_rec);
}

#[test]
fn redeposit_after_full_withdrawal_reactivates() {
    let mut pool = initialize(AUTH, 100, 254);
    let mut rec = NodeStake::fresh(NODE_A);
    stake(&mut pool, &mut rec, NODE_A, 150, 10).unwrap();
    unstake(&mut pool, &mut rec, NODE_A, 150, 20).unwrap();
    assert_eq!(pool.total_nodes, 0);
    stake(&mut pool, &mut rec, NODE_A, 120, 30).unwrap();
    assert_eq!(rec.amount, 120);
    assert_eq!(pool.total_nodes, 1);
    assert_eq!(pool.total_staked, 120);
    // first-deposit timestamp survives the inactive spell
    assert_eq!(rec.staked_at, 10);
    assert_eq!(rec.last_update, 30);
}

#[test]
fn penalty_by_non_authority_rejected_state_unchanged() {
    let mut pool = initialize(AUTH, 100, 254);
    let mut rec = NodeStake::fresh(NODE_A);
    stake(&mut pool, &mut rec, NODE_A, 150, 10).unwrap();
    let before_pool = pool;
    let before_rec = rec;
    let r = slash_node(&mut pool, &mut rec, NODE_A, 50, 20);
    assert_eq!(r, Err(StakingError::Unauthorized));
    assert_eq!(pool, before_pool);
    assert_eq!(rec, before_rec);
}

#[test]
fn partial_penalty_removes_exactly_requested() {
    let mut pool = initialize(AUTH, 100, 254);
    let mut rec = NodeStake::fresh(NODE_A);
    stake(&mut pool, &mut rec, NODE_A, 200, 10).unwrap();
    let ev = slash_node(&mut pool, &mut rec, AUTH, 50, 20).unwrap();
    assert_eq!(pool.total_staked, 150);
    assert_eq!(pool.total_nodes, 1);
    assert_eq!(rec.amount, 150);
    assert_eq!(rec.last_update, 20);
    assert_eq!(
        ev,
        SlashEvent { node: NODE_A, amount: 50, remaining_stake: 150, timestamp: 20 }
    );
}

#[test]
fn oversized_penalty_clamps_to_balance() {
    let mut pool = initialize(AUTH, 10, 254);
    let mut rec = NodeStake::fresh(NODE_A);
    stake(&mut pool, &mut rec, NODE_A, 50, 10).unwrap();
    let ev = slash_node(&mut pool, &mut rec, AUTH, 1000, 20).unwrap();
    assert_eq!(rec.amount, 0);
    assert_eq!(pool.total_staked, 0);
    assert_eq!(pool.total_nodes, 0);
    assert_eq!(ev.amount, 50);
    assert_eq!(ev.remaining_stake, 0);
}

#[test]
fn drifted_decrements_floor_at_zero() {
    // Under the consistency invariant these floors are never reached; they
    // are the ledger's deliberate clamp against aggregate drift.
    let mut pool = StakingPool {
        authority: AUTH,
        min_stake: 0,
        total_staked: 5,
        total_nodes: 0,
        bump: 254,
    };
    let mut rec = NodeStake { node_address: NODE_A, amount: 10, staked_at: 1, last_update: 1 };
    let ev = unstake(&mut pool, &mut rec, NODE_A, 10, 2).unwrap();
    assert_eq!(rec.amount, 0);
    assert_eq!(pool.total_staked, 0);
    assert_eq!(pool.total_nodes, 0);
    assert_eq!(ev.amount, 10);
}

#[test]
fn end_to_end_scenario() {
    let mut pool = initialize(AUTH, 100, 254);
    let mut rec_a = NodeStake::fresh(NODE_A);
    let mut rec_b = NodeStake::fresh(NODE_B);

    stake(&mut pool, &mut rec_a, NODE_A, 150, 10).unwrap();
    assert_eq!(pool.total_staked, 150);
    assert_eq!(pool.total_nodes, 1);

    stake(&mut pool, &mut rec_b, NODE_B, 200, 11).unwrap();
    assert_eq!(pool.total_staked, 350);
    assert_eq!(pool.total_nodes, 2);

    unstake(&mut pool, &mut rec_a, NODE_A, 150, 12).unwrap();
    assert_eq!(pool.total_staked, 200);
    assert_eq!(pool.total_nodes, 1);
    assert_eq!(rec_a.amount, 0);

    let ev = slash_node(&mut pool, &mut rec_b, AUTH, 50, 13).unwrap();
    assert_eq!(pool.total_staked, 150);
    assert_eq!(rec_b.amount, 150);
    assert_eq!(ev.amount, 50);

    // the aggregates agree with the records throughout
    assert_eq!(pool.total_staked, rec_a.amount + rec_b.amount);
    assert_eq!(pool.total_nodes, 1);
}
