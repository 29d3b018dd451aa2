//! Reset: the administrator closes a lapsed cycle.

use vstd::prelude::*;
use crate::accounts::{Identity, Mint, TokenAccount, TransferChecked};
use crate::error::ErrorCode;
use crate::state::global::State;

verus! {

/// The records and accounts a reset works on.
#[derive(Clone, Copy, Debug, PartialEq, Eq)]
pub struct ResetState {
    /// The caller.
    pub signer: Identity,
    pub token_pool_mint: Mint,
    pub program_state: State,
    /// The distribution pool, with the balance it holds now.
    pub token_pool_account: TokenAccount,
    /// The reserve that takes what nobody claimed.
    pub ecosystem_reserve_account: TokenAccount,
}

impl ResetState {
    /// Why a reset at time `now` is rejected, if it is.
    pub open spec fn rejection(self, now: i64) -> Option<ErrorCode> {
        if self.signer != self.program_state.admin {
            Some(ErrorCode::Unauthorized)
        } else if now <= self.program_state.unlock_after {
            Some(ErrorCode::EarlyReset)
        } else {
            None
        }
    }

    /// The transfer every successful reset asks for: all that the pool holds,
    /// to the reserve.
    pub open spec fn sweep(self) -> TransferChecked {
        TransferChecked {
            from: self.token_pool_account.key,
            mint: self.token_pool_mint.key,
            to: self.ecosystem_reserve_account.key,
            authority: self.token_pool_account.key,
            authority_bump: self.program_state.token_pool_account_bump,
            amount: self.token_pool_account.amount,
            decimals: self.token_pool_mint.decimals,
        }
    }

    /// Closes the cycle once its deadline has passed. On success the result is
    /// the transfer of the pool's whole balance to the reserve, and the total
    /// of points is zero; the contributors' own points are left to roll over
    /// at their next log or claim. A rejected reset changes nothing.
    pub fn reset(&mut self, now: i64) -> (result: Result<TransferChecked, ErrorCode>)
        ensures
            match old(self).rejection(now) {
                Some(e) => result == Err::<TransferChecked, ErrorCode>(e) && *final(self) == *old(self),
                None => result == Ok::<TransferChecked, ErrorCode>(old(self).sweep())
                    && *final(self) == (ResetState {
                    program_state: State {
                        global_contribution_points: 0,
                        ..old(self).program_state
                    },
                    ..*old(self)
                }),
            },
            result is Ok ==> final(self).program_state.global_contribution_points == 0
                && result->Ok_0.amount == old(self).token_pool_account.amount
                && result->Ok_0.from == old(self).token_pool_account.key
                && result->Ok_0.to == old(self).ecosystem_reserve_account.key,
            final(self).program_state.unlock_after == old(self).program_state.unlock_after,
    {
        if self.signer != self.program_state.admin {
            return Err(ErrorCode::Unauthorized);
        }
        if !(now > self.program_state.unlock_after) {
            return Err(ErrorCode::EarlyReset);
        }
        self.program_state.global_contribution_points = 0;
        Ok(
            TransferChecked {
                from: self.token_pool_account.key,
                mint: self.token_pool_mint.key,
                to: self.ecosystem_reserve_account.key,
                authority: self.token_pool_account.key,
                authority_bump: self.program_state.token_pool_account_bump,
                amount: self.token_pool_account.amount,
                decimals: self.token_pool_mint.decimals,
            },
        )
    }
}

} // verus!
