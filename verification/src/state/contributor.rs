//! The contributor record, one per contributor.

use vstd::prelude::*;
use crate::accounts::Identity;
use crate::state::global::State;

verus! {

/// One contributor's points and personal claim marker.
#[derive(Clone, Copy, Debug, PartialEq, Eq)]
pub struct Contribution {
    /// The key that may claim for this contributor.
    pub contributor_address: Identity,
    /// Where claimed units are paid.
    pub token_pool_account: Identity,
    /// Points in the current (or about to roll over) cycle.
    pub accumulated_points: u64,
    /// Earliest time of the next claim; also marks which cycle the points belong to.
    pub claim_after: i64,
    pub bump: u8,
}

impl Contribution {
    /// The contributor's marker has not moved past the cycle boundary: points
    /// logged now count, and a claim is not ruled out by the cycle.
    pub open spec fn in_cycle(self, state: State) -> bool {
        self.claim_after <= state.unlock_after
    }

    /// The part does not exceed the whole.
    pub open spec fn within(self, state: State) -> bool {
        self.accumulated_points <= state.global_contribution_points
    }
}

} // verus!
