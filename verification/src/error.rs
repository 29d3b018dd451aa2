//! The ways an operation is rejected.

use vstd::prelude::*;

verus! {

/// Why an operation was rejected. A rejected operation changes nothing.
#[derive(Clone, Copy, Debug, PartialEq, Eq, Structural)]
pub enum ErrorCode {
    /// The caller is not the authority the operation asks for.
    Unauthorized,
    /// A claim outside the contributor's eligible window.
    EarlyTokenClaim,
    /// A reset while the cycle deadline has not yet passed.
    EarlyReset,
    /// An unlock before the cycle deadline.
    EarlyUnlock,
    /// A counter or timestamp would leave its 64-bit range.
    ArithmeticOverflow,
    /// A claim while the cycle has no points at all.
    DivisionByZero,
}

impl ErrorCode {
    /// The message of each error, as a sequence of characters.
    pub open spec fn message_text(self) -> Seq<char> {
        match self {
            ErrorCode::Unauthorized =>
                "Unauthorized: You do not have permission to perform this action"@,
            ErrorCode::EarlyTokenClaim =>
                "Early Claim: Cannot claim tokens before the unlock period has elapsed"@,
            ErrorCode::EarlyReset =>
                "Early Reset: Cannot perform reset operation before the required time period"@,
            ErrorCode::EarlyUnlock => "Early Token Unlock!"@,
            ErrorCode::ArithmeticOverflow => "Arithmetic overflow"@,
            ErrorCode::DivisionByZero => "Division by zero: no points accrued in this cycle"@,
        }
    }

    /// The human-readable message that goes with the error.
    pub fn message(&self) -> (text: &'static str)
        ensures
            text@ == self.message_text(),
    {
        match self {
            ErrorCode::Unauthorized =>
                "Unauthorized: You do not have permission to perform this action",
            ErrorCode::EarlyTokenClaim =>
                "Early Claim: Cannot claim tokens before the unlock period has elapsed",
            ErrorCode::EarlyReset =>
                "Early Reset: Cannot perform reset operation before the required time period",
            ErrorCode::EarlyUnlock => "Early Token Unlock!",
            ErrorCode::ArithmeticOverflow => "Arithmetic overflow",
            ErrorCode::DivisionByZero => "Division by zero: no points accrued in this cycle",
        }
    }
}

} // verus!
