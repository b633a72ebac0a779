//! The immutable event values a successful transition produces.
//!
//! The ledger core computes each event; delivering it to the event sink is
//! the caller's job. The fields are exactly the externally observable data of
//! each transition.

use crate::records::Address;
use vstd::prelude::*;

verus! {

/// A successful deposit.
#[derive(Clone, Copy, Debug, PartialEq, Eq, Structural)]
pub struct StakeEvent {
    /// The depositing node.
    pub node: Address,
    /// The amount just deposited.
    pub amount: u64,
    /// The pool's `total_staked` after the deposit.
    pub total_staked: u64,
    /// When the deposit happened.
    pub timestamp: i64,
}

/// A successful withdrawal.
#[derive(Clone, Copy, Debug, PartialEq, Eq, Structural)]
pub struct UnstakeEvent {
    /// The withdrawing node.
    pub node: Address,
    /// The amount withdrawn.
    pub amount: u64,
    /// The node's `amount` after the withdrawal.
    pub remaining_stake: u64,
    /// When the withdrawal happened.
    pub timestamp: i64,
}

/// A penalty applied to a node.
#[derive(Clone, Copy, Debug, PartialEq, Eq, Structural)]
pub struct SlashEvent {
    /// The penalized node.
    pub node: Address,
    /// The amount actually slashed, after clamping to the node's balance.
    pub amount: u64,
    /// The node's `amount` after the penalty.
    pub remaining_stake: u64,
    /// When the penalty happened.
    pub timestamp: i64,
}

} // verus!
