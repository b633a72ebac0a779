//! The ledger's aggregate invariant and the laws the transitions obey.
//!
//! The pool never holds references to the individual stake records, so the
//! invariant relates the pool to a mathematical sequence of all records of
//! the deployment: `total_staked` equals the sum of their balances and
//! `total_nodes` the number of active ones. The public lemmas prove that
//! each transition, applied to any one record of the sequence, preserves it.

use crate::records::Address;
use crate::records::NodeStake;
use crate::records::StakingPool;
use crate::transitions::actual_slash;
use crate::transitions::initialized_pool;
use crate::transitions::pool_after_decrease;
use crate::transitions::stake_allowed;
use crate::transitions::stake_node_after;
use crate::transitions::stake_pool_after;
use crate::transitions::unstake_allowed;
use crate::transitions::unstake_node_after;
use vstd::prelude::*;

verus! {

/// The sum of the records' staked balances, as an unbounded integer.
pub open spec fn sum_amounts(records: Seq<NodeStake>) -> int
    decreases records.len(),
{
    if records.len() == 0 {
        0
    } else {
        sum_amounts(records.drop_last()) + records.last().amount
    }
}

/// The number of active records: those with `amount > 0`.
pub open spec fn active_count(records: Seq<NodeStake>) -> int
    decreases records.len(),
{
    if records.len() == 0 {
        0
    } else {
        active_count(records.drop_last()) + if records.last().amount > 0 {
            1int
        } else {
            0int
        }
    }
}

/// The aggregate invariant: the pool's totals agree with the records.
pub open spec fn pool_consistent(pool: StakingPool, records: Seq<NodeStake>) -> bool {
    &&& pool.total_staked == sum_amounts(records)
    &&& pool.total_nodes == active_count(records)
}

/// A freshly initialized pool is consistent with the deployment's records:
/// none exist yet.
pub proof fn lemma_initialize_consistent(authority: Address, min_stake: u64, bump: u8)
    ensures
        pool_consistent(initialized_pool(authority, min_stake, bump), Seq::<NodeStake>::empty()),
{
}

proof fn lemma_sum_nonneg(records: Seq<NodeStake>)
    ensures
        sum_amounts(records) >= 0,
    decreases records.len(),
{
    if records.len() > 0 {
        lemma_sum_nonneg(records.drop_last());
    }
}

proof fn lemma_count_nonneg(records: Seq<NodeStake>)
    ensures
        active_count(records) >= 0,
    decreases records.len(),
{
    if records.len() > 0 {
        lemma_count_nonneg(records.drop_last());
    }
}

proof fn lemma_element_le_sum(records: Seq<NodeStake>, i: int)
    requires
        0 <= i < records.len(),
    ensures
        records[i].amount <= sum_amounts(records),
    decreases records.len(),
{
    if i == records.len() - 1 {
        lemma_sum_nonneg(records.drop_last());
    } else {
        lemma_element_le_sum(records.drop_last(), i);
        assert(records.drop_last()[i] == records[i]);
    }
}

proof fn lemma_active_element_count_pos(records: Seq<NodeStake>, i: int)
    requires
        0 <= i < records.len(),
        records[i].amount > 0,
    ensures
        active_count(records) >= 1,
    decreases records.len(),
{
    if i == records.len() - 1 {
        lemma_count_nonneg(records.drop_last());
    } else {
        lemma_active_element_count_pos(records.drop_last(), i);
        assert(records.drop_last()[i] == records[i]);
    }
}

proof fn lemma_sum_update(records: Seq<NodeStake>, i: int, v: NodeStake)
    requires
        0 <= i < records.len(),
    ensures
        sum_amounts(records.update(i, v)) == sum_amounts(records) - records[i].amount + v.amount,
    decreases records.len(),
{
    let u = records.update(i, v);
    if i == records.len() - 1 {
        assert(u.drop_last() =~= records.drop_last());
        assert(u.last() == v);
    } else {
        assert(u.drop_last() =~= records.drop_last().update(i, v));
        assert(u.last() == records.last());
        lemma_sum_update(records.drop_last(), i, v);
        assert(records.drop_last()[i] == records[i]);
    }
}

proof fn lemma_count_update(records: Seq<NodeStake>, i: int, v: NodeStake)
    requires
        0 <= i < records.len(),
    ensures
        active_count(records.update(i, v)) == active_count(records) - (
        if records[i].amount > 0 {
            1int
        } else {
            0int
        }) + (
        if v.amount > 0 {
            1int
        } else {
            0int
        }),
    decreases records.len(),
{
    let u = records.update(i, v);
    if i == records.len() - 1 {
        assert(u.drop_last() =~= records.drop_last());
        assert(u.last() == v);
    } else {
        assert(u.drop_last() =~= records.drop_last().update(i, v));
        assert(u.last() == records.last());
        lemma_count_update(records.drop_last(), i, v);
        assert(records.drop_last()[i] == records[i]);
    }
}

/// A successful deposit into any one record of a consistent deployment leaves
/// the pool consistent with the updated records: `total_staked` still equals
/// the sum of balances and `total_nodes` the number of active records.
///
/// The one family of inputs left out is a deposit of 0 into an inactive
/// record (possible only when `min_stake` is 0): it counts the record as
/// becoming active without activating it.
pub proof fn lemma_stake_preserves_consistency(
    pool: StakingPool,
    records: Seq<NodeStake>,
    i: int,
    user: Address,
    amount: u64,
    now: i64,
)
    requires
        pool_consistent(pool, records),
        0 <= i < records.len(),
        stake_allowed(pool, amount),
        amount > 0 || records[i].amount > 0,
        pool.total_staked + amount <= u64::MAX,
        records[i].amount == 0 ==> pool.total_nodes < u64::MAX,
    ensures
        pool_consistent(
            stake_pool_after(pool, records[i], amount),
            records.update(i, stake_node_after(records[i], user, amount, now)),
        ),
{
    let node = records[i];
    let node2 = stake_node_after(node, user, amount, now);
    lemma_element_le_sum(records, i);
    lemma_sum_update(records, i, node2);
    lemma_count_update(records, i, node2);
}

/// A successful withdrawal from any one record of a consistent deployment
/// leaves the pool consistent with the updated records; in particular the
/// floored decrements never actually clamp.
///
/// The one family of inputs left out is a withdrawal of 0 from an inactive
/// record: it counts the record as deactivating though it already was.
pub proof fn lemma_unstake_preserves_consistency(
    pool: StakingPool,
    records: Seq<NodeStake>,
    i: int,
    amount: u64,
    now: i64,
)
    requires
        pool_consistent(pool, records),
        0 <= i < records.len(),
        unstake_allowed(records[i], amount),
        amount > 0 || records[i].amount > 0,
    ensures
        pool_consistent(
            pool_after_decrease(
                pool,
                amount,
                unstake_node_after(records[i], amount, now).amount == 0,
            ),
            records.update(i, unstake_node_after(records[i], amount, now)),
        ),
{
    let node = records[i];
    let node2 = unstake_node_after(node, amount, now);
    lemma_element_le_sum(records, i);
    lemma_sum_update(records, i, node2);
    lemma_count_update(records, i, node2);
    if node2.amount == 0 && node.amount > 0 {
        lemma_active_element_count_pos(records, i);
    }
}

/// A penalty on any active record of a consistent deployment leaves the pool
/// consistent with the updated records, whatever amount was requested: the
/// clamp keeps the removal within the record's balance.
///
/// The inputs left out are penalties on a record whose balance is already 0:
/// they remove nothing yet count the record as deactivating.
pub proof fn lemma_slash_preserves_consistency(
    pool: StakingPool,
    records: Seq<NodeStake>,
    i: int,
    slash_amount: u64,
    now: i64,
)
    requires
        pool_consistent(pool, records),
        0 <= i < records.len(),
        records[i].amount > 0,
    ensures
        pool_consistent(
            pool_after_decrease(
                pool,
                actual_slash(records[i], slash_amount),
                unstake_node_after(records[i], actual_slash(records[i], slash_amount), now).amount
                    == 0,
            ),
            records.update(
                i,
                unstake_node_after(records[i], actual_slash(records[i], slash_amount), now),
            ),
        ),
{
    lemma_unstake_preserves_consistency(
        pool,
        records,
        i,
        actual_slash(records[i], slash_amount),
        now,
    );
}

/// A penalty requesting more than the record holds clamps to the full
/// balance: the record ends at 0, `total_staked` drops by exactly the
/// record's former balance, and the active-node count drops by one.
pub proof fn lemma_slash_clamps(pool: StakingPool, node: NodeStake, slash_amount: u64, now: i64)
    requires
        slash_amount >= node.amount,
        node.amount > 0,
        pool.total_staked >= node.amount,
        pool.total_nodes >= 1,
    ensures
        unstake_node_after(node, actual_slash(node, slash_amount), now).amount == 0,
        pool_after_decrease(pool, actual_slash(node, slash_amount), true).total_staked
            == pool.total_staked - node.amount,
        pool_after_decrease(pool, actual_slash(node, slash_amount), true).total_nodes
            == pool.total_nodes - 1,
{
}

/// Withdrawing a record's full balance and then depositing again reproduces
/// an active record: after the withdrawal the balance is exactly 0; after a
/// new deposit that meets the minimum, the balance equals the new deposit
/// alone and `total_nodes` is back up by one, at its value before the pair.
pub proof fn lemma_rejoin_after_full_unstake(
    pool: StakingPool,
    node: NodeStake,
    user: Address,
    deposit: u64,
    now1: i64,
    now2: i64,
)
    requires
        node.amount > 0,
        pool.total_staked >= node.amount,
        pool.total_nodes >= 1,
        deposit >= pool.min_stake,
        pool.total_staked - node.amount + deposit <= u64::MAX,
    ensures
        ({
            let node1 = unstake_node_after(node, node.amount, now1);
            let pool1 = pool_after_decrease(pool, node.amount, true);
            let node2 = stake_node_after(node1, user, deposit, now2);
            let pool2 = stake_pool_after(pool1, node1, deposit);
            &&& node1.amount == 0
            &&& node2.amount == deposit
            &&& pool2.total_nodes == pool1.total_nodes + 1
            &&& pool2.total_nodes == pool.total_nodes
            &&& pool2.total_staked == pool.total_staked - node.amount + deposit
        }),
{
}

} // verus!
