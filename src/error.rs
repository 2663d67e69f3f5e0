use vstd::prelude::*;

verus! {

/// Every way an operation of the engine can fail. A failed operation has no
/// effect: the state it was given is left as it was and no ledger operation
/// is issued.
#[derive(Clone, Copy, Debug, PartialEq, Eq, Structural)]
pub enum ErrorCode {
    InvalidWhitelistSize,
    InsufficientBalance,
    TradingNotEnabled,
    WhitelistFull,
    NotInWhitelist,
    Unauthorized,
    TransferCooldown,
    TransferLimitExceeded,
    InvalidAdminAddress,
    InvalidSupply,
    InvalidAmount,
    ContractFrozen,
    ArithmeticOverflow,
    ArithmeticUnderflow,
    AccountNotFound,
    InsufficientAccounts,
    AccountMismatch,
}

impl ErrorCode {
    /// The human-readable message of the error.
    pub fn message(&self) -> (r: &'static str) {
        match self {
            ErrorCode::InvalidWhitelistSize => "Invalid whitelist size",
            ErrorCode::InsufficientBalance => "Insufficient balance for operation",
            ErrorCode::TradingNotEnabled => "Trading not enabled yet",
            ErrorCode::WhitelistFull => "Whitelist is full",
            ErrorCode::NotInWhitelist => "Address not in whitelist",
            ErrorCode::Unauthorized => "Unauthorized action",
            ErrorCode::TransferCooldown => "Transfer cooldown active",
            ErrorCode::TransferLimitExceeded => "Transfer amount exceeds limit",
            ErrorCode::InvalidAdminAddress => "Invalid new admin address",
            ErrorCode::InvalidSupply => "Invalid supply",
            ErrorCode::InvalidAmount => "Invalid amount",
            ErrorCode::ContractFrozen => "Contract is frozen",
            ErrorCode::ArithmeticOverflow => "Arithmetic overflow",
            ErrorCode::ArithmeticUnderflow => "Arithmetic underflow",
            ErrorCode::AccountNotFound => "Required account not found",
            ErrorCode::InsufficientAccounts => "Insufficient accounts provided",
            ErrorCode::AccountMismatch => "Account mismatch",
        }
    }
}

} // verus!
