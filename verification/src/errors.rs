//! The ways an operation of the engine can be refused.

use vstd::prelude::*;

verus! {

/// Why an operation was refused. A refused operation changes nothing.
#[derive(Clone, Copy, Debug, PartialEq, Eq, Structural)]
pub enum BonkrError {
    /// The factory is paused: no token is created and nothing trades.
    ContractPaused,
    /// Trading on this token has been switched off.
    TradingDisabled,
    /// The token has graduated and left the curve.
    TokenGraduated,
    /// A trade of zero units.
    InvalidAmount,
    /// An intermediate or final quantity does not fit in 64 bits, or a
    /// subtraction would go below zero, or a division would be by zero.
    MathOverflow,
    /// The trade would pay out less than the caller's minimum.
    SlippageExceeded,
    /// A sale would take more out of the curve than was ever deposited.
    InsufficientLiquidity,
    /// The caller is not the factory's authority.
    UnauthorizedAdmin,
    /// The caller is not the token's creator.
    UnauthorizedCreator,
    /// The creator has no accrued fees.
    NoFeesToClaim,
    /// The escrow holds nothing above the minimum it must retain.
    NoFundsToRecover,
    /// The token name has more than 32 characters.
    NameTooLong,
    /// The token symbol has more than 10 characters.
    SymbolTooLong,
    /// Deposits are still below the graduation threshold.
    NotReadyToGraduate,
}

/// The text shown for each error.
pub open spec fn error_text(e: BonkrError) -> Seq<char> {
    match e {
        BonkrError::ContractPaused => "Contract is paused"@,
        BonkrError::TradingDisabled => "Trading is disabled"@,
        BonkrError::TokenGraduated => "Token graduated"@,
        BonkrError::InvalidAmount => "Invalid amount"@,
        BonkrError::MathOverflow => "Math overflow"@,
        BonkrError::SlippageExceeded => "Slippage exceeded"@,
        BonkrError::InsufficientLiquidity => "Insufficient liquidity"@,
        BonkrError::UnauthorizedAdmin => "Unauthorized admin"@,
        BonkrError::UnauthorizedCreator => "Unauthorized creator"@,
        BonkrError::NoFeesToClaim => "No fees to claim"@,
        BonkrError::NoFundsToRecover => "No funds to recover"@,
        BonkrError::NameTooLong => "Name too long"@,
        BonkrError::SymbolTooLong => "Symbol too long"@,
        BonkrError::NotReadyToGraduate => "Not ready to graduate"@,
    }
}

impl BonkrError {
    /// The text shown for this error.
    pub fn message(&self) -> (text: &'static str)
        ensures
            text@ == error_text(*self),
    {
        match self {
            BonkrError::ContractPaused => "Contract is paused",
            BonkrError::TradingDisabled => "Trading is disabled",
            BonkrError::TokenGraduated => "Token graduated",
            BonkrError::InvalidAmount => "Invalid amount",
            BonkrError::MathOverflow => "Math overflow",
            BonkrError::SlippageExceeded => "Slippage exceeded",
            BonkrError::InsufficientLiquidity => "Insufficient liquidity",
            BonkrError::UnauthorizedAdmin => "Unauthorized admin",
            BonkrError::UnauthorizedCreator => "Unauthorized creator",
            BonkrError::NoFeesToClaim => "No fees to claim",
            BonkrError::NoFundsToRecover => "No funds to recover",
            BonkrError::NameTooLong => "Name too long",
            BonkrError::SymbolTooLong => "Symbol too long",
            BonkrError::NotReadyToGraduate => "Not ready to graduate",
        }
    }
}

} // verus!
