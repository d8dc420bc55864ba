use vstd::prelude::*;

verus! {

/// The failure that the ledger delegate reported, by its numeric status code.
#[derive(Clone, Copy, Debug, PartialEq, Eq, Structural)]
pub struct LedgerError {
    pub code: u64,
}

/// Why an operation was refused. An operation that fails changes nothing.
#[derive(Clone, Copy, Debug, PartialEq, Eq, Structural)]
pub enum ErrorCode {
    /// The burn percentage is above 10000 basis points.
    InvalidBurnPercentage,
    /// The requested amount is below the configured minimum.
    BelowMinBurnAmount,
    /// The claimed profit is below the configured threshold.
    ProfitThresholdNotMet,
    /// The requested amount is below the share of the profit that must be burned.
    InsufficientBurnAmount,
    /// The caller is not the authority of the configuration.
    AuthorizationMismatch,
    /// The payment proof verifier rejected the proof.
    PaymentProofRejected,
    /// A result does not fit in 64 bits.
    ArithmeticOverflow,
    /// The ledger delegate failed; its error is passed on as it came.
    LedgerDelegateFailure(LedgerError),
    /// A configuration for this authority and token already exists.
    ConfigAlreadyExists,
    /// No configuration exists for this authority and token.
    ConfigNotFound,
}

impl ErrorCode {
    /// The message that `message` returns for this error.
    pub open spec fn message_text(self) -> Seq<char> {
        match self {
            ErrorCode::InvalidBurnPercentage => {
                "Invalid burn percentage: must be 0-10000 (0-100%)"@
            },
            ErrorCode::BelowMinBurnAmount => "Burn amount below minimum threshold"@,
            ErrorCode::ProfitThresholdNotMet => "Profit threshold not met"@,
            ErrorCode::InsufficientBurnAmount => "Insufficient burn amount based on profit"@,
            ErrorCode::AuthorizationMismatch => "Caller is not the configured authority"@,
            ErrorCode::PaymentProofRejected => "Payment proof rejected"@,
            ErrorCode::ArithmeticOverflow => "Arithmetic overflow"@,
            ErrorCode::LedgerDelegateFailure(_) => "Ledger delegate failed"@,
            ErrorCode::ConfigAlreadyExists => "Burn config already exists"@,
            ErrorCode::ConfigNotFound => "Burn config not found"@,
        }
    }

    /// A short description of the error for the caller.
    pub fn message(&self) -> (text: &'static str)
        ensures
            text@ == self.message_text(),
    {
        match self {
            ErrorCode::InvalidBurnPercentage => "Invalid burn percentage: must be 0-10000 (0-100%)",
            ErrorCode::BelowMinBurnAmount => "Burn amount below minimum threshold",
            ErrorCode::ProfitThresholdNotMet => "Profit threshold not met",
            ErrorCode::InsufficientBurnAmount => "Insufficient burn amount based on profit",
            ErrorCode::AuthorizationMismatch => "Caller is not the configured authority",
            ErrorCode::PaymentProofRejected => "Payment proof rejected",
            ErrorCode::ArithmeticOverflow => "Arithmetic overflow",
            ErrorCode::LedgerDelegateFailure(_) => "Ledger delegate failed",
            ErrorCode::ConfigAlreadyExists => "Burn config already exists",
            ErrorCode::ConfigNotFound => "Burn config not found",
        }
    }
}

} // verus!
