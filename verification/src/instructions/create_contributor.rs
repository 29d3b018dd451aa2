//! Creation of a contributor record.

use vstd::prelude::*;
use crate::accounts::{Identity, Mint, TokenAccount};
use crate::constants::CLAIM_WINDOW_SECONDS;
use crate::error::ErrorCode;
use crate::state::contributor::Contribution;
use crate::state::global::State;

verus! {

/// The record a contributor starts with under `state`: no points, and a claim
/// marker one claim window before the current deadline.
pub open spec fn new_contributor(
    state: State,
    owner: Identity,
    destination: Identity,
    bump: u8,
) -> Contribution {
    Contribution {
        contributor_address: owner,
        token_pool_account: destination,
        accumulated_points: 0,
        claim_after: (state.unlock_after - CLAIM_WINDOW_SECONDS) as i64,
        bump,
    }
}

/// The records and accounts the creation of a contributor works on.
#[derive(Clone, Copy, Debug, PartialEq, Eq)]
pub struct InitializeContributor {
    /// The caller, who becomes the record's owner.
    pub signer: Identity,
    pub token_pool_mint: Mint,
    pub state: State,
    /// The record that is being created; what it held before does not matter.
    pub contributor: Contribution,
    /// The owner's account for the distributed asset.
    pub contributor_pool_account: TokenAccount,
}

/// Address bumps found for the accounts of a contributor's creation.
#[derive(Clone, Copy, Debug, PartialEq, Eq)]
pub struct InitializeContributorBumps {
    pub contributor: u8,
}

impl InitializeContributor {
    /// Why the creation is rejected, if it is: only a deadline so close to the
    /// lower end of the 64-bit range that the claim window does not fit below it.
    pub open spec fn rejection(self) -> Option<ErrorCode> {
        if self.state.unlock_after - CLAIM_WINDOW_SECONDS < i64::MIN {
            Some(ErrorCode::ArithmeticOverflow)
        } else {
            None
        }
    }

    /// Fills in the contributor record. A rejected creation changes nothing.
    pub fn create_contributor_account(&mut self, bumps: &InitializeContributorBumps) -> (result:
        Result<(), ErrorCode>)
        ensures
            match old(self).rejection() {
                Some(e) => result == Err::<(), ErrorCode>(e) && *final(self) == *old(self),
                None => result is Ok && *final(self) == (InitializeContributor {
                    contributor: new_contributor(
                        old(self).state,
                        old(self).signer,
                        old(self).contributor_pool_account.key,
                        bumps.contributor,
                    ),
                    ..*old(self)
                }),
            },
            result is Ok ==> final(self).contributor.in_cycle(final(self).state)
                && final(self).contributor.within(final(self).state),
    {
        let claim_after: i64 = match self.state.unlock_after.checked_sub(
            CLAIM_WINDOW_SECONDS as i64,
        ) {
            Some(t) => t,
            None => {
                return Err(ErrorCode::ArithmeticOverflow);
            },
        };
        self.contributor = Contribution {
            contributor_address: self.signer,
            token_pool_account: self.contributor_pool_account.key,
            accumulated_points: 0,
            claim_after,
            bump: bumps.contributor,
        };
        Ok(())
    }
}

} // verus!
