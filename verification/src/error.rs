//! Reasons for which the ledger turns an operation down.

use anchor_lang::prelude::ProgramError;
use vstd::prelude::*;

verus! {

/// Why an operation was refused. Every refusal is final for the operation
/// that met it and leaves the ledger as it was.
#[derive(Clone, Copy, Debug, PartialEq, Eq, Hash, Structural)]
pub enum CustomError {
    /// A withdrawal or a loan asks for more than the pool holds.
    InsufficientLiquidity,
    /// A party asks to unstake more than it has staked.
    InsufficientStake,
    /// A loan was asked for while another one is still out.
    FlashLoanInProgress,
    /// A loan was repaid after its repayment window had closed.
    FlashLoanExpired,
    /// The borrower is missing from a non-empty allow-list.
    NotWhitelisted,
    /// The caller is not the authority that the ledger records.
    Unauthorized,
}

impl CustomError {
    /// The message of the refusal, as a sequence of characters.
    pub open spec fn spec_message(&self) -> Seq<char> {
        match self {
            CustomError::InsufficientLiquidity => "Insufficient liquidity in the pool."@,
            CustomError::InsufficientStake => "Insufficient staked balance."@,
            CustomError::FlashLoanInProgress => "Flash loan already in progress."@,
            CustomError::FlashLoanExpired => "Flash loan expired (time limit exceeded)."@,
            CustomError::NotWhitelisted => "Borrower not whitelisted for flash loans."@,
            CustomError::Unauthorized => "Unauthorized."@,
        }
    }

    /// A sentence that tells the caller what went wrong.
    pub fn message(&self) -> (text: &'static str)
        ensures
            text@ == self.spec_message(),
    {
        match self {
            CustomError::InsufficientLiquidity => "Insufficient liquidity in the pool.",
            CustomError::InsufficientStake => "Insufficient staked balance.",
            CustomError::FlashLoanInProgress => "Flash loan already in progress.",
            CustomError::FlashLoanExpired => "Flash loan expired (time limit exceeded).",
            CustomError::NotWhitelisted => "Borrower not whitelisted for flash loans.",
            CustomError::Unauthorized => "Unauthorized.",
        }
    }
}

/// Why an operation that consults the clock came to nothing.
#[derive(Debug, PartialEq, Eq)]
pub enum LedgerError {
    /// The ledger refused the operation.
    Rejected(CustomError),
    /// The clock could not be read; the runtime's own error is passed on.
    Clock(ProgramError),
}

} // verus!
