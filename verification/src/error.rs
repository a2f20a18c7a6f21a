//! The ways in which a ledger operation can fail.

use vstd::prelude::*;

verus! {

/// Why an operation was refused. A refused operation changes nothing.
#[derive(Clone, Copy, Debug, PartialEq, Eq, Structural)]
pub enum ContractError {
    /// A deposit of nothing.
    InvalidAmount,
    /// No record for the given id, or none held by the given borrower.
    NotFound,
    /// The borrower's balance does not cover the tax that is due.
    InsufficientFunds,
    /// A tax amount does not fit in 128 bits.
    ArithmeticOverflow,
    /// The transfer message for a token contract could not be produced.
    TransferFailed,
}

impl ContractError {
    /// A short text for each error, for logs and responses.
    pub fn message(&self) -> (text: String)
        ensures
            text@ == self.message_text(),
    {
        match self {
            ContractError::InvalidAmount => String::from_str("Invalid amount: deposit must be positive"),
            ContractError::NotFound => String::from_str("Collateral not found"),
            ContractError::InsufficientFunds => String::from_str("Insufficient funds to pay tax"),
            ContractError::ArithmeticOverflow => String::from_str("Arithmetic overflow"),
            ContractError::TransferFailed => String::from_str("Transfer failed"),
        }
    }

    /// The text that [`ContractError::message`] gives.
    pub open spec fn message_text(&self) -> Seq<char> {
        match self {
            ContractError::InvalidAmount => "Invalid amount: deposit must be positive"@,
            ContractError::NotFound => "Collateral not found"@,
            ContractError::InsufficientFunds => "Insufficient funds to pay tax"@,
            ContractError::ArithmeticOverflow => "Arithmetic overflow"@,
            ContractError::TransferFailed => "Transfer failed"@,
        }
    }
}

} // verus!
