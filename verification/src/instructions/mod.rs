//! The six operations of the protocol, one file each.

pub mod claim_tokens;
pub mod create_contributor;
pub mod initialize;
pub mod log_contribution;
pub mod reset_state;
pub mod unlock_tokens;

pub use claim_tokens::ClaimTokens;
pub use create_contributor::{InitializeContributor, InitializeContributorBumps};
pub use initialize::{Initialize, InitializeBumps};
pub use log_contribution::LogContribution;
pub use reset_state::ResetState;
pub use unlock_tokens::Unlock;
