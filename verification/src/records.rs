//! The two persistent records of the ledger: the pool and the per-node stake.

use vstd::prelude::*;

verus! {

/// An opaque participant identity. The ledger only ever compares identities
/// for equality: the authority check on penalties, and the owner stamped on a
/// stake record. Key derivation and signing belong to external collaborators.
#[derive(Clone, Copy, Debug, PartialEq, Eq, Structural)]
pub struct Address {
    pub id: u64,
}

/// The pool ledger: one instance per deployment.
///
/// `total_staked` and `total_nodes` are maintained incrementally by the
/// transitions, never recomputed by scanning; `consistency::pool_consistent`
/// states the invariant that ties them to the set of stake records.
#[derive(Clone, Copy, Debug, PartialEq, Eq, Structural)]
pub struct StakingPool {
    /// The identity permitted to invoke `slash_node`. Set once at creation.
    pub authority: Address,
    /// Minimum amount accepted by a single deposit. Set once at creation.
    pub min_stake: u64,
    /// Sum of all stake records' `amount`.
    pub total_staked: u64,
    /// Number of stake records with `amount > 0`.
    pub total_nodes: u64,
    /// Seed byte of the pool's delegated signing capability; opaque to the
    /// ledger, carried for the external transfer collaborator.
    pub bump: u8,
}

/// A node's stake record: one instance per participant identity.
///
/// A record is created lazily on a node's first deposit and becomes inert
/// (rather than being destroyed) when `amount` returns to 0; a later deposit
/// reactivates it. `amount` is unsigned, so it can never be negative.
#[derive(Clone, Copy, Debug, PartialEq, Eq, Structural)]
pub struct NodeStake {
    /// The owning identity.
    pub node_address: Address,
    /// Current staked balance.
    pub amount: u64,
    /// Timestamp of the record's first deposit; 0 while no deposit has ever
    /// been made. Set once, never updated.
    pub staked_at: i64,
    /// Timestamp of the most recent mutation to this record.
    pub last_update: i64,
}

impl NodeStake {
    /// The record a fresh, never-funded node starts from.
    pub open spec fn fresh_spec(owner: Address) -> NodeStake {
        NodeStake { node_address: owner, amount: 0, staked_at: 0, last_update: 0 }
    }

    /// Creates the empty record for `owner`, as record storage does on a
    /// node's first deposit (create-if-absent).
    pub fn fresh(owner: Address) -> (r: NodeStake)
        ensures
            r == NodeStake::fresh_spec(owner),
    {
        NodeStake { node_address: owner, amount: 0, staked_at: 0, last_update: 0 }
    }
}

} // verus!
