//! The ways in which a request to the bridge is turned down.

use vstd::prelude::*;

verus! {

/// Why a deposit or an administrative request was rejected. Every rejection
/// leaves the ledger exactly as it was.
#[derive(Clone, Copy, Debug, PartialEq, Eq, Structural)]
pub enum NextBlockError {
    /// Deposits are switched off.
    ProgramPaused,
    /// The amount is zero.
    InvalidAmount,
    /// The amount is under the minimum deposit.
    AmountTooLow,
    /// The amount is over the maximum deposit.
    AmountTooHigh,
    /// The caller is not the administrator.
    Unauthorized,
    /// The recipient is the all-zero address.
    InvalidRecipient,
    /// Kept for the step that hands the message to the messaging protocol.
    CCTPTransmissionFailed,
    /// A counter of the ledger would exceed 64 bits.
    ArithmeticOverflow,
    /// Kept for the check of a protocol nonce.
    InvalidNonce,
}

impl NextBlockError {
    /// The text shown to the caller for each rejection.
    pub open spec fn spec_message(self) -> Seq<char> {
        match self {
            NextBlockError::ProgramPaused => "Program is currently paused"@,
            NextBlockError::InvalidAmount => "Deposit amount must be greater than zero"@,
            NextBlockError::AmountTooLow => "Deposit amount is below minimum required"@,
            NextBlockError::AmountTooHigh => "Deposit amount exceeds maximum allowed"@,
            NextBlockError::Unauthorized => "Unauthorized: Only admin can perform this action"@,
            NextBlockError::InvalidRecipient => "Invalid recipient address"@,
            NextBlockError::CCTPTransmissionFailed => "CCTP message transmission failed"@,
            NextBlockError::ArithmeticOverflow => "Arithmetic overflow"@,
            NextBlockError::InvalidNonce => "Invalid CCTP nonce"@,
        }
    }

    /// The text for this rejection.
    pub fn message(&self) -> (text: &'static str)
        ensures
            text@ == self.spec_message(),
    {
        match self {
            NextBlockError::ProgramPaused => "Program is currently paused",
            NextBlockError::InvalidAmount => "Deposit amount must be greater than zero",
            NextBlockError::AmountTooLow => "Deposit amount is below minimum required",
            NextBlockError::AmountTooHigh => "Deposit amount exceeds maximum allowed",
            NextBlockError::Unauthorized => "Unauthorized: Only admin can perform this action",
            NextBlockError::InvalidRecipient => "Invalid recipient address",
            NextBlockError::CCTPTransmissionFailed => "CCTP message transmission failed",
            NextBlockError::ArithmeticOverflow => "Arithmetic overflow",
            NextBlockError::InvalidNonce => "Invalid CCTP nonce",
        }
    }
}

} // verus!
