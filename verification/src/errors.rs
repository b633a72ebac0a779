//! The ledger's error taxonomy. Every error is detected before any mutation
//! is applied: a rejected transition leaves both records exactly as they were.

use vstd::prelude::*;

verus! {

/// Why a transition was rejected.
#[derive(Clone, Copy, Debug, PartialEq, Eq, Structural)]
pub enum StakingError {
    /// A deposit below the pool's `min_stake`.
    InsufficientStake,
    /// A withdrawal of more than the record's current `amount`.
    InsufficientBalance,
    /// A penalty invoked by an identity other than the pool's `authority`.
    Unauthorized,
}

} // verus!
