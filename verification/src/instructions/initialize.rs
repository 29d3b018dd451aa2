//! Initialisation: the one-time creation of the global cycle state.

use vstd::prelude::*;
use crate::accounts::{Identity, Mint, TokenAccount};
use crate::error::ErrorCode;
use crate::state::global::State;

verus! {

/// The global state a protocol starts with: the caller as administrator, the
/// distribution pool and the reserve on record, no points, and a deadline of
/// zero so that the first unlock is due at once.
pub open spec fn initial_state(
    admin: Identity,
    mint: Identity,
    pool: Identity,
    pool_bump: u8,
    reserve: Identity,
    reserve_bump: u8,
    state_bump: u8,
) -> State {
    State {
        admin,
        token_pool_mint: mint,
        token_pool_account: pool,
        community_reserve_account: reserve,
        global_contribution_points: 0,
        unlock_after: 0,
        token_pool_account_bump: pool_bump,
        community_reserve_account_bump: reserve_bump,
        state_bump,
    }
}

/// The records and accounts initialisation works on.
#[derive(Clone, Copy, Debug, PartialEq, Eq)]
pub struct Initialize {
    /// The caller, who becomes the administrator.
    pub signer: Identity,
    pub token_pool_mint: Mint,
    /// The record that is being created; what it held before does not matter.
    pub program_state: State,
    /// The distribution pool.
    pub token_pool_account: TokenAccount,
    /// The reserve.
    pub community_reserve_account: TokenAccount,
}

/// Address bumps found for the accounts of an initialisation.
#[derive(Clone, Copy, Debug, PartialEq, Eq)]
pub struct InitializeBumps {
    pub program_state: u8,
    pub token_pool_account: u8,
    pub community_reserve_account: u8,
}

impl Initialize {
    /// Fills in the global state: the caller is the administrator, and both
    /// the distribution pool and the reserve are on record from here on.
    /// Always succeeds.
    pub fn init_state(&mut self, bumps: &InitializeBumps) -> (result: Result<(), ErrorCode>)
        ensures
            result is Ok,
            *final(self) == (Initialize {
                program_state: initial_state(
                    old(self).signer,
                    old(self).token_pool_mint.key,
                    old(self).token_pool_account.key,
                    bumps.token_pool_account,
                    old(self).community_reserve_account.key,
                    bumps.community_reserve_account,
                    bumps.program_state,
                ),
                ..*old(self)
            }),
            final(self).program_state.admin == old(self).signer,
            final(self).program_state.token_pool_account == old(self).token_pool_account.key,
            final(self).program_state.token_pool_account_bump == bumps.token_pool_account,
            final(self).program_state.community_reserve_account == old(
                self
            ).community_reserve_account.key,
            final(self).program_state.global_contribution_points == 0,
            final(self).program_state.unlock_after == 0,
    {
        self.program_state = State {
            admin: self.signer,
            token_pool_mint: self.token_pool_mint.key,
            token_pool_account: self.token_pool_account.key,
            community_reserve_account: self.community_reserve_account.key,
            global_contribution_points: 0,
            unlock_after: 0,
            community_reserve_account_bump: bumps.community_reserve_account,
            token_pool_account_bump: bumps.token_pool_account,
            state_bump: bumps.program_state,
        };
        Ok(())
    }
}

} // verus!
