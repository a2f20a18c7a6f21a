//! A collateral-backed loan ledger.
//!
//! Borrowers deposit an asset as collateral. The ledger keeps one record per
//! deposit, lets the borrower restate what the deposit is worth, charges a
//! holding tax that grows with the time since it was last settled, and hands
//! the whole deposit to whoever liquidates the record.
//!
//! The ledger moves nothing itself. Every operation in [`contract`] takes the
//! ledger, the block it runs in and the caller, and gives back a
//! [`transfer::Response`]: the transfers that the host is to carry out
//! afterwards, in order, and attributes for auditing. An operation that is
//! refused leaves the ledger as it was.
//!
//! What does not belong to the ledger, and is not enforced by it: who may
//! liquidate and when, any relation between a record's amount, its valuation
//! and the tax it owes, and whether the host carried a transfer out.

pub mod contract;
pub mod error;
pub mod laws;
pub mod msg;
pub mod state;
pub mod tax;
pub mod text;
pub mod transfer;

pub use contract::{execute, instantiate};
pub use error::ContractError;
