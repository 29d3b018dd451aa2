//! Unlock: the administrator opens a cycle and mints its supply.

use vstd::prelude::*;
use crate::accounts::{Identity, Mint, MintTo, TokenAccount};
use crate::constants::{MONTHLY_UNLOCK_SUPPLY, TOKEN_UNLOCK_AFTER_SECONDS};
use crate::error::ErrorCode;
use crate::state::global::State;

verus! {

/// The global state after a successful unlock at time `now`: the deadline is
/// 30 days from `now`, wherever the old one was, and nothing else moves.
pub open spec fn state_after_unlock(state: State, now: i64) -> State {
    State { unlock_after: (now + TOKEN_UNLOCK_AFTER_SECONDS) as i64, ..state }
}

/// The records and accounts an unlock works on.
#[derive(Clone, Copy, Debug, PartialEq, Eq)]
pub struct Unlock {
    /// The caller.
    pub admin: Identity,
    pub token_pool_mint: Mint,
    pub state: State,
    /// The distribution pool, which receives the supply.
    pub token_pool_account: TokenAccount,
}

impl Unlock {
    /// Why an unlock at time `now` is rejected, if it is.
    pub open spec fn rejection(self, now: i64) -> Option<ErrorCode> {
        if self.admin != self.state.admin {
            Some(ErrorCode::Unauthorized)
        } else if now < self.state.unlock_after {
            Some(ErrorCode::EarlyUnlock)
        } else if now + TOKEN_UNLOCK_AFTER_SECONDS > i64::MAX {
            Some(ErrorCode::ArithmeticOverflow)
        } else {
            None
        }
    }

    /// The mint every successful unlock asks for: the monthly supply, into the
    /// pool, authorised by the protocol's own pool address and never by the
    /// administrator's key.
    pub open spec fn supply(self) -> MintTo {
        MintTo {
            mint: self.token_pool_mint.key,
            to: self.token_pool_account.key,
            authority: self.token_pool_account.key,
            authority_bump: self.state.token_pool_account_bump,
            amount: MONTHLY_UNLOCK_SUPPLY as u64,
        }
    }

    /// Opens a new cycle at time `now`. On success the result is the mint to
    /// perform, always of the monthly supply, and the deadline is `now` plus
    /// 30 days, so a late unlock does not catch up on missed periods. A
    /// rejected unlock changes nothing.
    pub fn unlock_tokens(&mut self, now: i64) -> (result: Result<MintTo, ErrorCode>)
        ensures
            match old(self).rejection(now) {
                Some(e) => result == Err::<MintTo, ErrorCode>(e) && *final(self) == *old(self),
                None => result == Ok::<MintTo, ErrorCode>(old(self).supply()) && *final(self)
                    == (Unlock { state: state_after_unlock(old(self).state, now), ..*old(self) }),
            },
            result is Ok ==> result->Ok_0.amount == 10_000 && final(self).state.unlock_after == now
                + 2_592_000 && final(self).state.unlock_after > old(self).state.unlock_after,
            result is Ok ==> result->Ok_0.authority == old(self).token_pool_account.key
                && result->Ok_0.authority_bump == old(self).state.token_pool_account_bump,
            final(self).state.global_contribution_points == old(
                self
            ).state.global_contribution_points,
    {
        if self.admin != self.state.admin {
            return Err(ErrorCode::Unauthorized);
        }
        if now < self.state.unlock_after {
            return Err(ErrorCode::EarlyUnlock);
        }
        let deadline: i64 = match now.checked_add(TOKEN_UNLOCK_AFTER_SECONDS as i64) {
            Some(t) => t,
            None => {
                return Err(ErrorCode::ArithmeticOverflow);
            },
        };
        self.state.unlock_after = deadline;
        Ok(
            MintTo {
                mint: self.token_pool_mint.key,
                to: self.token_pool_account.key,
                authority: self.token_pool_account.key,
                authority_bump: self.state.token_pool_account_bump,
                amount: MONTHLY_UNLOCK_SUPPLY as u64,
            },
        )
    }
}

} // verus!
