//! The failures an operation on a pool can end in.

use vstd::prelude::*;

verus! {

/// Why an operation was refused. Every refusal leaves the pool as it was.
#[derive(Clone, Copy, Debug, PartialEq, Eq, Structural)]
pub enum ErrorCode {
    /// A sum, difference or product does not fit in 64 bits.
    ArithmeticOverflow,
    /// A quotient was asked for with a zero divisor.
    DivisionByZero,
    /// The product of the reserves would fall below the recorded one.
    InvariantViolation,
    /// The asset offered to a swap is neither of the pool's two assets.
    WrongInputToken,
    /// More shares were handed in than are outstanding.
    InsufficientShares,
    /// An account does not belong to the pool or to the caller, or the caller did not sign.
    AccountMismatch,
    /// The pool record has been initialized before.
    AlreadyInitialized,
    /// The ledger refused a transfer, mint or burn.
    LedgerError,
    /// A deposit of nothing of one asset, or a withdrawal of no shares, that nothing else
    /// is wrong with.
    ZeroAmount,
    /// Two of the three assets that a pool is created for are the same.
    SameAsset,
}

impl ErrorCode {
    /// The description of each failure, as a sequence of characters.
    pub open spec fn text(self) -> Seq<char> {
        match self {
            ErrorCode::ArithmeticOverflow => "Arithmetic overflow"@,
            ErrorCode::DivisionByZero => "Division by zero"@,
            ErrorCode::InvariantViolation => "Invariant violation"@,
            ErrorCode::WrongInputToken => "Wrong input token"@,
            ErrorCode::InsufficientShares => "Insufficient shares"@,
            ErrorCode::AccountMismatch => "Account mismatch"@,
            ErrorCode::AlreadyInitialized => "Already initialized"@,
            ErrorCode::LedgerError => "Ledger error"@,
            ErrorCode::ZeroAmount => "Zero amount"@,
            ErrorCode::SameAsset => "Same asset"@,
        }
    }

    /// A short description for people.
    pub fn message(&self) -> (text: &'static str)
        ensures
            text@ == self.text(),
    {
        match self {
            ErrorCode::ArithmeticOverflow => "Arithmetic overflow",
            ErrorCode::DivisionByZero => "Division by zero",
            ErrorCode::InvariantViolation => "Invariant violation",
            ErrorCode::WrongInputToken => "Wrong input token",
            ErrorCode::InsufficientShares => "Insufficient shares",
            ErrorCode::AccountMismatch => "Account mismatch",
            ErrorCode::AlreadyInitialized => "Already initialized",
            ErrorCode::LedgerError => "Ledger error",
            ErrorCode::ZeroAmount => "Zero amount",
            ErrorCode::SameAsset => "Same asset",
        }
    }
}

} // verus!
