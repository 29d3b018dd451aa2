//! Protocol parameters, fixed at build time.

use vstd::prelude::*;

verus! {

/// Decimal precision the distributed asset is declared with.
pub const MINT_DECIMALS: u8 = 6;

/// Units minted into the distribution pool by every unlock.
pub const MONTHLY_UNLOCK_SUPPLY: u16 = 10_000;

/// A cycle pays out the full supply only when its total points exceed this.
pub const FAIRNESS_THRESHOLD_POINTS: u16 = 500;

/// Two days: how far before the cycle boundary a fresh contributor becomes eligible.
pub const CLAIM_WINDOW_SECONDS: u32 = 172800;

/// 28 days: offset of the next claim eligibility past the current deadline.
pub const TOKEN_CLAIM_AFTER_SECONDS: i32 = 2419200;

/// 30 days: length of the window an unlock opens.
pub const TOKEN_UNLOCK_AFTER_SECONDS: i32 = 2592000;

} // verus!
