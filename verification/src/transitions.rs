//! The three state transitions — deposit, withdrawal, penalty — and pool
//! initialization.
//!
//! Each transition validates its preconditions first and either commits a
//! consistent new state and returns the event describing it, or rejects the
//! request with no mutation at all. The spec functions alongside each
//! transition state the exact successor state; the executable functions are
//! proved to produce it.
//!
//! Timestamps come from the caller's time source as the `now` argument.
//! Decrements of the aggregate fields saturate at 0 by design rather than
//! failing: under the consistency invariant they never actually clamp, but
//! the ledger floors them defensively against drift.

use crate::errors::StakingError;
use crate::events::SlashEvent;
use crate::events::StakeEvent;
use crate::events::UnstakeEvent;
use crate::records::Address;
use crate::records::NodeStake;
use crate::records::StakingPool;
use vstd::prelude::*;

verus! {

/// The pool ledger as `initialize` creates it: the given authority and
/// minimum, both aggregates at zero.
pub open spec fn initialized_pool(authority: Address, min_stake: u64, bump: u8) -> StakingPool {
    StakingPool { authority, min_stake, total_staked: 0, total_nodes: 0, bump }
}

/// Creates the pool ledger for a deployment.
///
/// Invoked once per deployment by the designated authority; record storage's
/// create-if-absent semantics reject a second creation, so re-initialization
/// never reaches the ledger. A `min_stake` of 0 means "no minimum".
pub fn initialize(authority: Address, min_stake: u64, bump: u8) -> (pool: StakingPool)
    ensures
        pool == initialized_pool(authority, min_stake, bump),
{
    StakingPool { authority, min_stake, total_staked: 0, total_nodes: 0, bump }
}

/// Whether the pool accepts a deposit of `amount`.
pub open spec fn stake_allowed(pool: StakingPool, amount: u64) -> bool {
    amount >= pool.min_stake
}

/// The depositing node's record after a successful deposit: the balance grows
/// by `amount`, the owner is stamped, `staked_at` is set only on the record's
/// first-ever deposit, and `last_update` moves to `now`.
pub open spec fn stake_node_after(node: NodeStake, user: Address, amount: u64, now: i64) -> NodeStake
    recommends
        node.amount + amount <= u64::MAX,
{
    NodeStake {
        node_address: user,
        amount: (node.amount + amount) as u64,
        staked_at: if node.staked_at == 0 { now } else { node.staked_at },
        last_update: now,
    }
}

/// The pool after a successful deposit: `total_staked` grows by `amount`, and
/// `total_nodes` grows by one exactly when the record was inactive before —
/// first-time creation and reactivation both count as becoming active.
pub open spec fn stake_pool_after(pool: StakingPool, node: NodeStake, amount: u64) -> StakingPool
    recommends
        pool.total_staked + amount <= u64::MAX,
        node.amount == 0 ==> pool.total_nodes < u64::MAX,
{
    StakingPool {
        total_staked: (pool.total_staked + amount) as u64,
        total_nodes: if node.amount == 0 {
            (pool.total_nodes + 1) as u64
        } else {
            pool.total_nodes
        },
        ..pool
    }
}

/// Deposits `amount` into `user`'s stake record.
///
/// Rejects a deposit below the pool's minimum with `InsufficientStake` and no
/// mutation. On success, mutates the record and the pool exactly as
/// `stake_node_after` and `stake_pool_after` state and returns the `Staked`
/// event. The caller must have completed the matching value transfer from the
/// user to the pool's custody, or must discard the mutation if that transfer
/// fails, so that the two commit atomically.
pub fn stake(
    pool: &mut StakingPool,
    node: &mut NodeStake,
    user: Address,
    amount: u64,
    now: i64,
) -> (r: Result<StakeEvent, StakingError>)
    requires
        old(pool).total_staked + amount <= u64::MAX,
        old(node).amount + amount <= u64::MAX,
        old(node).amount == 0 ==> old(pool).total_nodes < u64::MAX,
    ensures
        stake_allowed(*old(pool), amount) ==> {
            &&& *final(pool) == stake_pool_after(*old(pool), *old(node), amount)
            &&& *final(node) == stake_node_after(*old(node), user, amount, now)
            &&& r == Ok::<StakeEvent, StakingError>(StakeEvent {
                node: user,
                amount,
                total_staked: final(pool).total_staked,
                timestamp: now,
            })
        },
        !stake_allowed(*old(pool), amount) ==> {
            &&& *final(pool) == *old(pool)
            &&& *final(node) == *old(node)
            &&& r == Err::<StakeEvent, StakingError>(StakingError::InsufficientStake)
        },
{
    if amount < pool.min_stake {
        return Err(StakingError::InsufficientStake);
    }

    if node.amount == 0 {
        pool.total_nodes = pool.total_nodes + 1;
    }
    node.amount = node.amount + amount;
    if node.staked_at == 0 {
        node.staked_at = now;
    }
    node.last_update = now;
    node.node_address = user;

    pool.total_staked = pool.total_staked + amount;

    Ok(StakeEvent { node: user, amount, total_staked: pool.total_staked, timestamp: now })
}

/// Whether the record's balance covers a withdrawal of `amount`.
pub open spec fn unstake_allowed(node: NodeStake, amount: u64) -> bool {
    node.amount >= amount
}

/// The node's record after a successful withdrawal of `amount`.
pub open spec fn unstake_node_after(node: NodeStake, amount: u64, now: i64) -> NodeStake
    recommends
        node.amount >= amount,
{
    NodeStake { amount: (node.amount - amount) as u64, last_update: now, ..node }
}

/// The pool after `removed` leaves the staked total, deactivating the touched
/// record or not. Both decrements floor at 0 rather than going negative.
pub open spec fn pool_after_decrease(pool: StakingPool, removed: u64, deactivated: bool) -> StakingPool {
    StakingPool {
        total_staked: if pool.total_staked >= removed {
            (pool.total_staked - removed) as u64
        } else {
            0
        },
        total_nodes: if deactivated {
            if pool.total_nodes >= 1 {
                (pool.total_nodes - 1) as u64
            } else {
                0
            }
        } else {
            pool.total_nodes
        },
        ..pool
    }
}

/// Withdraws `amount` from `user`'s stake record.
///
/// Rejects a withdrawal of more than the record's balance with
/// `InsufficientBalance` and no mutation. On success, mutates the record and
/// the pool exactly as `unstake_node_after` and `pool_after_decrease` state
/// and returns the `Unstaked` event; withdrawing the full balance is valid
/// and deactivates the record without deleting it. The caller performs the
/// matching value transfer from the pool's custody back to the user, under
/// the pool's delegated signing capability, atomically with this mutation.
pub fn unstake(
    pool: &mut StakingPool,
    node: &mut NodeStake,
    user: Address,
    amount: u64,
    now: i64,
) -> (r: Result<UnstakeEvent, StakingError>)
    ensures
        unstake_allowed(*old(node), amount) ==> {
            &&& *final(node) == unstake_node_after(*old(node), amount, now)
            &&& *final(pool) == pool_after_decrease(
                *old(pool),
                amount,
                final(node).amount == 0,
            )
            &&& r == Ok::<UnstakeEvent, StakingError>(UnstakeEvent {
                node: user,
                amount,
                remaining_stake: final(node).amount,
                timestamp: now,
            })
        },
        !unstake_allowed(*old(node), amount) ==> {
            &&& *final(pool) == *old(pool)
            &&& *final(node) == *old(node)
            &&& r == Err::<UnstakeEvent, StakingError>(StakingError::InsufficientBalance)
        },
{
    if node.amount < amount {
        return Err(StakingError::InsufficientBalance);
    }

    node.amount = node.amount - amount;
    node.last_update = now;

    if node.amount == 0 {
        pool.total_nodes = pool.total_nodes.saturating_sub(1);
    }

    pool.total_staked = pool.total_staked.saturating_sub(amount);

    Ok(UnstakeEvent { node: user, amount, remaining_stake: node.amount, timestamp: now })
}

/// Whether `caller` may invoke the penalty transition on this pool.
pub open spec fn slash_allowed(pool: StakingPool, caller: Address) -> bool {
    caller == pool.authority
}

/// The amount a penalty actually removes: a requested `slash_amount` beyond
/// the record's balance silently clamps to the full balance, by design.
pub open spec fn actual_slash(node: NodeStake, slash_amount: u64) -> u64 {
    if slash_amount <= node.amount {
        slash_amount
    } else {
        node.amount
    }
}

/// Penalizes `node` by removing up to `slash_amount` from its balance.
///
/// Rejects a caller other than the pool's authority with `Unauthorized` and
/// no mutation. On success, removes `actual_slash` — the requested amount
/// clamped to the record's balance — from the record and from `total_staked`,
/// deactivates the record if its balance reaches 0, and returns the `Slashed`
/// event. No value transfer accompanies a penalty: slashed funds stay in the
/// pool's custody with no recorded destination.
pub fn slash_node(
    pool: &mut StakingPool,
    node: &mut NodeStake,
    caller: Address,
    slash_amount: u64,
    now: i64,
) -> (r: Result<SlashEvent, StakingError>)
    ensures
        slash_allowed(*old(pool), caller) ==> {
            &&& *final(node) == unstake_node_after(
                *old(node),
                actual_slash(*old(node), slash_amount),
                now,
            )
            &&& *final(pool) == pool_after_decrease(
                *old(pool),
                actual_slash(*old(node), slash_amount),
                final(node).amount == 0,
            )
            &&& r == Ok::<SlashEvent, StakingError>(SlashEvent {
                node: old(node).node_address,
                amount: actual_slash(*old(node), slash_amount),
                remaining_stake: final(node).amount,
                timestamp: now,
            })
        },
        !slash_allowed(*old(pool), caller) ==> {
            &&& *final(pool) == *old(pool)
            &&& *final(node) == *old(node)
            &&& r == Err::<SlashEvent, StakingError>(StakingError::Unauthorized)
        },
{
    if caller != pool.authority {
        return Err(StakingError::Unauthorized);
    }

    let slashed: u64 = if slash_amount <= node.amount {
        slash_amount
    } else {
        node.amount
    };

    node.amount = node.amount - slashed;
    node.last_update = now;

    if node.amount == 0 {
        pool.total_nodes = pool.total_nodes.saturating_sub(1);
    }

    pool.total_staked = pool.total_staked.saturating_sub(slashed);

    Ok(SlashEvent {
        node: node.node_address,
        amount: slashed,
        remaining_stake: node.amount,
        timestamp: now,
    })
}

} // verus!
