//! A minimal staking ledger.
//!
//! The library tracks a pool's aggregate stake (`StakingPool`) and each
//! participant's individual balance (`NodeStake`), and applies three state
//! transitions — deposit (`stake`), withdrawal (`unstake`) and penalty
//! (`slash_node`) — while keeping `total_staked` and `total_nodes` consistent
//! with the sum and count of the individual records.
//!
//! The ledger core is pure: value transfer, timestamps, event delivery and
//! record storage are external collaborators. Callers pass the current time
//! in, perform transfers around the transition, and deliver the event value
//! that a successful transition returns.

mod consistency;
mod errors;
mod events;
mod records;
mod transitions;

pub use consistency::active_count;
pub use consistency::lemma_initialize_consistent;
pub use consistency::lemma_rejoin_after_full_unstake;
pub use consistency::lemma_slash_clamps;
pub use consistency::lemma_slash_preserves_consistency;
pub use consistency::lemma_stake_preserves_consistency;
pub use consistency::lemma_unstake_preserves_consistency;
pub use consistency::pool_consistent;
pub use consistency::sum_amounts;
pub use errors::StakingError;
pub use events::SlashEvent;
pub use events::StakeEvent;
pub use events::UnstakeEvent;
pub use records::Address;
pub use records::NodeStake;
pub use records::StakingPool;
pub use transitions::actual_slash;
pub use transitions::initialize;
pub use transitions::initialized_pool;
pub use transitions::pool_after_decrease;
pub use transitions::slash_allowed;
pub use transitions::slash_node;
pub use transitions::stake;
pub use transitions::stake_allowed;
pub use transitions::stake_node_after;
pub use transitions::stake_pool_after;
pub use transitions::unstake;
pub use transitions::unstake_allowed;
pub use transitions::unstake_node_after;
