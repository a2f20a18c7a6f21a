//! The requests that the ledger answers.

use vstd::prelude::*;

verus! {

/// The settings of a new ledger.
///
/// `tax_rate` is a whole number of basis points per second.
#[derive(Clone, Debug, PartialEq, Eq)]
pub struct InstantiateMsg {
    pub name: String,
    pub symbol: String,
    pub tax_rate: u64,
}

/// One operation on the ledger.
#[derive(Clone, Debug, PartialEq, Eq)]
pub enum ExecuteMsg {
    /// Deposit `amount` of `token` and declare it worth `valuation`.
    DepositCollateral { token: String, amount: u128, valuation: u128 },
    /// Declare the caller's record worth `new_valuation`.
    AdjustValuation { new_valuation: u128 },
    /// Settle the tax on the caller's record.
    PayTax {},
    /// Take the record `collateral_id` out and claim what it holds.
    LiquidateCollateral { collateral_id: String },
}

/// An operation as a mathematical value.
#[verifier::ext_equal]
pub enum ExecuteMsgView {
    DepositCollateral { token: Seq<char>, amount: u128, valuation: u128 },
    AdjustValuation { new_valuation: u128 },
    PayTax,
    LiquidateCollateral { collateral_id: Seq<char> },
}

impl View for ExecuteMsg {
    type V = ExecuteMsgView;

    open spec fn view(&self) -> ExecuteMsgView {
        match self {
            ExecuteMsg::DepositCollateral {
                token,
                amount,
                valuation,
            } => ExecuteMsgView::DepositCollateral {
                token: token@,
                amount: *amount,
                valuation: *valuation,
            },
            ExecuteMsg::AdjustValuation { new_valuation } => ExecuteMsgView::AdjustValuation {
                new_valuation: *new_valuation,
            },
            ExecuteMsg::PayTax {} => ExecuteMsgView::PayTax,
            ExecuteMsg::LiquidateCollateral {
                collateral_id,
            } => ExecuteMsgView::LiquidateCollateral { collateral_id: collateral_id@ },
        }
    }
}

/// What a deposit names, on its own.
#[derive(Clone, Debug, PartialEq, Eq)]
pub struct DepositMsg {
    pub token: String,
    pub amount: u128,
    pub valuation: u128,
}

/// An amount to take back out.
#[derive(Clone, Copy, Debug, PartialEq, Eq)]
pub struct WithdrawMsg {
    pub amount: u128,
}

/// A question about one record, by number.
#[derive(Clone, Copy, Debug, PartialEq, Eq)]
pub struct QueryMsg {
    pub collateral_id: u64,
}

} // verus!
