//! Claim: a contributor takes their share of the cycle's supply.

use vstd::prelude::*;
use crate::accounts::{Identity, Mint, TokenAccount, TransferChecked};
use crate::constants::{FAIRNESS_THRESHOLD_POINTS, MONTHLY_UNLOCK_SUPPLY, TOKEN_CLAIM_AFTER_SECONDS};
use crate::error::ErrorCode;
use crate::state::contributor::Contribution;
use crate::state::global::State;

verus! {

/// The supply a cycle with `total_points` in all has to distribute: the whole
/// monthly supply when participation exceeds the fairness threshold, half of
/// it otherwise.
pub open spec fn effective_supply(total_points: u64) -> int {
    if total_points > FAIRNESS_THRESHOLD_POINTS {
        MONTHLY_UNLOCK_SUPPLY as int
    } else {
        MONTHLY_UNLOCK_SUPPLY as int / 2
    }
}

/// The share of a contributor with `points` out of `total_points`, rounded down.
pub open spec fn claimable_tokens(points: u64, total_points: u64) -> int
    recommends
        total_points > 0,
{
    effective_supply(total_points) * points / (total_points as int)
}

/// The time window in which `contributor` may claim against `state`.
pub open spec fn claim_open(state: State, contributor: Contribution, now: i64) -> bool {
    now >= contributor.claim_after && contributor.claim_after <= state.unlock_after
}

/// Why a claim that is authorised is rejected, if it is. The checks come in
/// this order: the window, the product, the divisor, the next claim marker.
pub open spec fn claim_rejection(state: State, contributor: Contribution, now: i64) -> Option<
    ErrorCode,
> {
    if !claim_open(state, contributor, now) {
        Some(ErrorCode::EarlyTokenClaim)
    } else if effective_supply(state.global_contribution_points)
        * contributor.accumulated_points > u64::MAX {
        Some(ErrorCode::ArithmeticOverflow)
    } else if state.global_contribution_points == 0 {
        Some(ErrorCode::DivisionByZero)
    } else if state.unlock_after + TOKEN_CLAIM_AFTER_SECONDS > i64::MAX {
        Some(ErrorCode::ArithmeticOverflow)
    } else {
        None
    }
}

/// The contributor record after a successful claim against `state`: no points
/// left, and the next claim 28 days past the current deadline.
pub open spec fn contributor_after_claim(state: State, contributor: Contribution) -> Contribution {
    Contribution {
        accumulated_points: 0,
        claim_after: (state.unlock_after + TOKEN_CLAIM_AFTER_SECONDS) as i64,
        ..contributor
    }
}

/// The records and accounts a claim works on.
#[derive(Clone, Copy, Debug, PartialEq, Eq)]
pub struct ClaimTokens {
    /// The caller.
    pub signer: Identity,
    pub token_pool_mint: Mint,
    pub state: State,
    pub contributor: Contribution,
    /// The distribution pool, which pays and signs for itself.
    pub token_pool_account: TokenAccount,
}

impl ClaimTokens {
    /// Why this claim is rejected at time `now`, if it is.
    pub open spec fn rejection(self, now: i64) -> Option<ErrorCode> {
        if self.signer != self.contributor.contributor_address {
            Some(ErrorCode::Unauthorized)
        } else {
            claim_rejection(self.state, self.contributor, now)
        }
    }

    /// The transfer a successful claim asks for: the contributor's share, from
    /// the pool to the contributor's destination account.
    pub open spec fn payout(self) -> TransferChecked {
        TransferChecked {
            from: self.token_pool_account.key,
            mint: self.token_pool_mint.key,
            to: self.contributor.token_pool_account,
            authority: self.token_pool_account.key,
            authority_bump: self.state.token_pool_account_bump,
            amount: claimable_tokens(
                self.contributor.accumulated_points,
                self.state.global_contribution_points,
            ) as u64,
            decimals: self.token_pool_mint.decimals,
        }
    }

    /// Settles the contributor's claim at time `now`. On success the result is
    /// the transfer to perform and the contributor record has moved to the
    /// next cycle; the global state is only read. A rejected claim changes
    /// nothing.
    pub fn claim_contributor_tokens(&mut self, now: i64) -> (result: Result<
        TransferChecked,
        ErrorCode,
    >)
        ensures
            match old(self).rejection(now) {
                Some(e) => result == Err::<TransferChecked, ErrorCode>(e) && *final(self) == *old(self),
                None => result == Ok::<TransferChecked, ErrorCode>(old(self).payout())
                    && *final(self) == (ClaimTokens {
                    contributor: contributor_after_claim(old(self).state, old(self).contributor),
                    ..*old(self)
                }),
            },
            result is Ok ==> result->Ok_0.amount <= effective_supply(
                old(self).state.global_contribution_points,
            ) * old(self).contributor.accumulated_points,
            old(self).signer == old(self).contributor.contributor_address && now < old(self).contributor.claim_after ==> result == Err::<TransferChecked, ErrorCode>(
                ErrorCode::EarlyTokenClaim,
            ),
            result is Ok ==> final(self).contributor.accumulated_points == 0 && !claim_open(
                final(self).state,
                final(self).contributor,
                now,
            ),
            final(self).state == old(self).state,
            result is Ok ==> final(self).contributor.within(final(self).state),
    {
        if self.signer != self.contributor.contributor_address {
            return Err(ErrorCode::Unauthorized);
        }
        if !(now >= self.contributor.claim_after && self.contributor.claim_after
            <= self.state.unlock_after) {
            return Err(ErrorCode::EarlyTokenClaim);
        }
        let total: u64 = self.state.global_contribution_points;
        let tokens_to_distribute: u64 = if total > FAIRNESS_THRESHOLD_POINTS as u64 {
            MONTHLY_UNLOCK_SUPPLY as u64
        } else {
            MONTHLY_UNLOCK_SUPPLY as u64 / 2
        };
        let product: u64 = match tokens_to_distribute.checked_mul(
            self.contributor.accumulated_points,
        ) {
            Some(p) => p,
            None => {
                return Err(ErrorCode::ArithmeticOverflow);
            },
        };
        let claimable: u64 = match product.checked_div(total) {
            Some(q) => q,
            None => {
                return Err(ErrorCode::DivisionByZero);
            },
        };
        let next_claim: i64 = match self.state.unlock_after.checked_add(
            TOKEN_CLAIM_AFTER_SECONDS as i64,
        ) {
            Some(t) => t,
            None => {
                return Err(ErrorCode::ArithmeticOverflow);
            },
        };
        proof {
            assert(product as int / (total as int) <= product as int) by (nonlinear_arith)
                requires
                    product >= 0,
                    total > 0,
            ;
        }
        self.contributor.claim_after = next_claim;
        self.contributor.accumulated_points = 0;
        Ok(
            TransferChecked {
                from: self.token_pool_account.key,
                mint: self.token_pool_mint.key,
                to: self.contributor.token_pool_account,
                authority: self.token_pool_account.key,
                authority_bump: self.state.token_pool_account_bump,
                amount: claimable,
                decimals: self.token_pool_mint.decimals,
            },
        )
    }
}

} // verus!
