//! The global cycle state, of which there is one.

use vstd::prelude::*;
use crate::accounts::Identity;

verus! {

/// The singleton record that couples all contributors: the cycle boundary and
/// the running total of points logged in the cycle.
#[derive(Clone, Copy, Debug, PartialEq, Eq)]
pub struct State {
    /// Sole authority for unlocking, resetting and logging contributions.
    pub admin: Identity,
    /// The asset kind being distributed.
    pub token_pool_mint: Identity,
    /// Holding account of supply that is minted and not yet claimed.
    pub token_pool_account: Identity,
    /// Sink for supply that nobody claimed in its cycle.
    pub community_reserve_account: Identity,
    /// Sum of the points logged for all contributors since the last reset.
    pub global_contribution_points: u64,
    /// Earliest time of the next unlock; the boundary of the current cycle.
    pub unlock_after: i64,
    /// Address bump of the pool account, with which the protocol signs for it.
    pub token_pool_account_bump: u8,
    pub community_reserve_account_bump: u8,
    pub state_bump: u8,
}

} // verus!
