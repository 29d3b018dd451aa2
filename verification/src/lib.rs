//! Points-based periodic token distribution: the contribution-accounting and
//! distribution state machine, with every transition proved against its contract.
//!
//! The library decides; it performs nothing. Each operation takes the records
//! it works on as plain values, together with the current time where it needs
//! one, and answers with the new records and the asset movement to carry out.

use vstd::prelude::*;

pub mod accounts;
pub mod constants;
pub mod cycle;
pub mod error;
pub mod instructions;
pub mod state;

pub use accounts::{Identity, Mint, MintTo, TokenAccount, TransferChecked};
pub use error::ErrorCode;
pub use instructions::{
    ClaimTokens, Initialize, InitializeBumps, InitializeContributor, InitializeContributorBumps,
    LogContribution, ResetState, Unlock,
};
pub use state::{Contribution, State};

use instructions::claim_tokens::contributor_after_claim;
use instructions::create_contributor::new_contributor;
use instructions::initialize::initial_state;
use instructions::log_contribution::{contributor_after_log, state_after_log};
use instructions::unlock_tokens::state_after_unlock;

verus! {

/// Entry point of initialisation: creates the global cycle state with the
/// caller as administrator and with the distribution pool and the reserve on
/// record. Always succeeds.
pub fn initialize_program_state(accounts: &mut Initialize, bumps: &InitializeBumps) -> (result:
    Result<(), ErrorCode>)
    ensures
        result is Ok,
        *final(accounts) == (Initialize {
            program_state: initial_state(
                old(accounts).signer,
                old(accounts).token_pool_mint.key,
                old(accounts).token_pool_account.key,
                bumps.token_pool_account,
                old(accounts).community_reserve_account.key,
                bumps.community_reserve_account,
                bumps.program_state,
            ),
            ..*old(accounts)
        }),
        final(accounts).program_state.token_pool_account == old(accounts).token_pool_account.key,
        final(accounts).program_state.community_reserve_account == old(
            accounts
        ).community_reserve_account.key,
{
    accounts.init_state(bumps)
}

/// Entry point of unlock: at time `now`, answers with the mint of the monthly
/// supply, authorised by the protocol's own pool address, and moves the
/// deadline to `now` plus 30 days, or rejects the call and changes nothing.
pub fn unlock_tokens(accounts: &mut Unlock, now: i64) -> (result: Result<MintTo, ErrorCode>)
    ensures
        match old(accounts).rejection(now) {
            Some(e) => result == Err::<MintTo, ErrorCode>(e) && *final(accounts) == *old(accounts),
            None => result == Ok::<MintTo, ErrorCode>(old(accounts).supply()) && *final(accounts)
                == (Unlock { state: state_after_unlock(old(accounts).state, now), ..*old(accounts) }),
        },
{
    accounts.unlock_tokens(now)
}

/// Entry point of reset: at time `now`, answers with the sweep of the pool
/// into the reserve and zeroes the total of points, or rejects the call and
/// changes nothing.
pub fn reset_program_state(accounts: &mut ResetState, now: i64) -> (result: Result<
    TransferChecked,
    ErrorCode,
>)
    ensures
        match old(accounts).rejection(now) {
            Some(e) => result == Err::<TransferChecked, ErrorCode>(e) && *final(accounts) == *old(accounts),
            None => result == Ok::<TransferChecked, ErrorCode>(old(accounts).sweep()) && *final(accounts) == (ResetState {
                program_state: State {
                    global_contribution_points: 0,
                    ..old(accounts).program_state
                },
                ..*old(accounts)
            }),
        },
{
    accounts.reset(now)
}

/// Entry point of contributor creation. The external identity string only
/// serves to address the record; the record's content does not depend on it.
pub fn create_contributor_account(
    accounts: &mut InitializeContributor,
    bumps: &InitializeContributorBumps,
    _gh_username: String,
) -> (result: Result<(), ErrorCode>)
    ensures
        match old(accounts).rejection() {
            Some(e) => result == Err::<(), ErrorCode>(e) && *final(accounts) == *old(accounts),
            None => result is Ok && *final(accounts) == (InitializeContributor {
                contributor: new_contributor(
                    old(accounts).state,
                    old(accounts).signer,
                    old(accounts).contributor_pool_account.key,
                    bumps.contributor,
                ),
                ..*old(accounts)
            }),
        },
{
    accounts.create_contributor_account(bumps)
}

/// Entry point of contribution logging. The external identity string only
/// serves to address the contributor's record.
pub fn log_contributor_points(
    accounts: &mut LogContribution,
    _gh_username: String,
    points: u64,
) -> (result: Result<(), ErrorCode>)
    ensures
        match old(accounts).rejection(points) {
            Some(e) => result == Err::<(), ErrorCode>(e) && *final(accounts) == *old(accounts),
            None => result is Ok && *final(accounts) == (LogContribution {
                state: state_after_log(old(accounts).state, old(accounts).contributor, points),
                contributor: contributor_after_log(
                    old(accounts).state,
                    old(accounts).contributor,
                    points,
                ),
                ..*old(accounts)
            }),
        },
{
    accounts.log_contributor_points(points)
}

/// Entry point of claim: at time `now`, answers with the transfer of the
/// contributor's share and moves the contributor to the next cycle, or rejects
/// the call and changes nothing. The external identity string only serves to
/// address the contributor's record.
pub fn claim_contributor_tokens(accounts: &mut ClaimTokens, _gh_username: String, now: i64) -> (result:
    Result<TransferChecked, ErrorCode>)
    ensures
        match old(accounts).rejection(now) {
            Some(e) => result == Err::<TransferChecked, ErrorCode>(e) && *final(accounts) == *old(accounts),
            None => result == Ok::<TransferChecked, ErrorCode>(old(accounts).payout()) && *final(accounts) == (ClaimTokens {
                contributor: contributor_after_claim(
                    old(accounts).state,
                    old(accounts).contributor,
                ),
                ..*old(accounts)
            }),
        },
{
    accounts.claim_contributor_tokens(now)
}

} // verus!
