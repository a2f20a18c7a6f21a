//! What holds of the operations taken together. Each law is stated over the
//! outcomes that the operations are proved to compute.

use vstd::prelude::*;
use crate::contract::{
    adjust_valuation_outcome,
    deposit_outcome,
    deposited_record,
    execute_outcome,
    liquidate_outcome,
    pay_tax_outcome,
    EnvView,
    MessageInfoView,
};
use crate::error::ContractError;
use crate::msg::ExecuteMsgView;
use crate::state::{
    lemma_has_borrower,
    lemma_has_id,
    lemma_index_of_borrower,
    lemma_index_of_id,
    CollateralView,
    LedgerView,
};
use crate::tax::lemma_zero_operand;
use crate::text::collateral_id_text;
use crate::transfer::{ResponseView, TransferView};

verus! {

/// Filing a record keeps identifiers apart.
pub proof fn lemma_put_keeps_well_formed(ledger: LedgerView, record: CollateralView)
    requires
        ledger.well_formed(),
    ensures
        ledger.put(record).well_formed(),
{
    if ledger.has_id(record.id) {
        lemma_has_id(ledger, record.id);
    }
}

/// Taking a record out keeps identifiers apart, and afterwards no record has
/// the identifier that was taken out: taking it out again changes nothing.
pub proof fn lemma_without_removes_id(ledger: LedgerView, id: Seq<char>)
    requires
        ledger.well_formed(),
    ensures
        ledger.without(id).well_formed(),
        !ledger.without(id).has_id(id),
        ledger.without(id).without(id) == ledger.without(id),
{
    if ledger.has_id(id) {
        lemma_has_id(ledger, id);
    }
}

/// A deposit of more than nothing goes through unless the message for the
/// token's contract is wanted and missing. When it goes through, the ledger
/// holds a record under the returned identifier, with the token, the amount
/// and the valuation as given, the caller as borrower, and the tax clock at
/// the block's time; the response names that identifier and schedules one
/// transfer.
pub proof fn lemma_deposit_files_record(
    ledger: LedgerView,
    env: EnvView,
    info: MessageInfoView,
    token: Seq<char>,
    amount: u128,
    valuation: u128,
    encoded: Option<Seq<u8>>,
)
    requires
        amount > 0,
    ensures
        match deposit_outcome(ledger, env, info, token, amount, valuation, encoded) {
            Ok((after, response)) => {
                let id = collateral_id_text(env.block_height as nat, info.sender);
                &&& after.has_id(id)
                &&& after.collaterals[after.index_of_id(id)] == (CollateralView {
                    id,
                    token,
                    amount,
                    valuation,
                    last_tax_payment: env.block_time,
                    borrower: info.sender,
                })
                &&& response.attributes.last() == ("collateral_id"@, id)
                &&& response.messages.len() == 1
            },
            Err(e) => e == ContractError::TransferFailed && !info.has_funds_in(token)
                && encoded is None,
        },
{
    let id = collateral_id_text(env.block_height as nat, info.sender);
    let after = ledger.put(deposited_record(env, info, token, amount, valuation));
    if ledger.has_id(id) {
        lemma_has_id(ledger, id);
        lemma_index_of_id(after, id, ledger.index_of_id(id));
    } else {
        lemma_index_of_id(after, id, ledger.collaterals.len() as int);
    }
}

/// Where the identifier of a deposit is not in use, the identifier is absent
/// before and present after, and the ledger grows by the new record and is
/// otherwise as it was. The identifier of a deposit is in use only if the
/// same borrower has deposited in the same block and that record is still
/// there.
pub proof fn lemma_deposit_under_fresh_id(
    ledger: LedgerView,
    env: EnvView,
    info: MessageInfoView,
    token: Seq<char>,
    amount: u128,
    valuation: u128,
    encoded: Option<Seq<u8>>,
)
    requires
        amount > 0,
        !ledger.has_id(collateral_id_text(env.block_height as nat, info.sender)),
    ensures
        match deposit_outcome(ledger, env, info, token, amount, valuation, encoded) {
            Ok((after, response)) => {
                let id = collateral_id_text(env.block_height as nat, info.sender);
                &&& !ledger.has_id(id)
                &&& after.has_id(id)
                &&& after.index_of_id(id) == ledger.collaterals.len()
                &&& after.collaterals == ledger.collaterals.push(
                    deposited_record(env, info, token, amount, valuation),
                )
                &&& ledger.well_formed() ==> after.well_formed()
            },
            Err(e) => e == ContractError::TransferFailed && !info.has_funds_in(token)
                && encoded is None,
        },
{
    let id = collateral_id_text(env.block_height as nat, info.sender);
    let record = deposited_record(env, info, token, amount, valuation);
    lemma_index_of_id(ledger.put(record), id, ledger.collaterals.len() as int);
    if ledger.well_formed() {
        lemma_put_keeps_well_formed(ledger, record);
    }
}

/// Liquidating the same record twice: the first call takes the record out
/// and schedules one transfer of what it held to the first caller; the
/// second call, whoever makes it and whenever, finds nothing, schedules
/// nothing, and leaves the ledger as the first call left it.
pub proof fn lemma_liquidate_twice(
    ledger: LedgerView,
    id: Seq<char>,
    env1: EnvView,
    info1: MessageInfoView,
    env2: EnvView,
    info2: MessageInfoView,
)
    requires
        ledger.well_formed(),
        ledger.has_id(id),
    ensures
        ({
            let record = ledger.collaterals[ledger.index_of_id(id)];
            let (first, response1) = liquidate_outcome(ledger, env1, info1, id);
            let (second, response2) = liquidate_outcome(first, env2, info2, id);
            &&& response1.messages == seq![
                TransferView::Native {
                    denom: record.token,
                    amount: record.amount,
                    source: env1.contract_address,
                    destination: info1.sender,
                },
            ]
            &&& response1.attributes.last() == ("status"@, "success"@)
            &&& first.collaterals.len() == ledger.collaterals.len() - 1
            &&& !first.has_id(id)
            &&& second == first
            &&& response2.messages.len() == 0
            &&& response2.attributes.last() == ("status"@, "not found"@)
        }),
{
    lemma_has_id(ledger, id);
    lemma_without_removes_id(ledger, id);
}

/// A deposit that is liquidated at once comes back whole: the liquidator is
/// to receive exactly the amount deposited, in the token deposited, and no
/// record is left under the identifier. Where the identifier was not in use
/// before the deposit, the ledger is again what it was.
pub proof fn lemma_deposit_then_liquidate(
    ledger: LedgerView,
    env: EnvView,
    info: MessageInfoView,
    token: Seq<char>,
    amount: u128,
    valuation: u128,
    encoded: Option<Seq<u8>>,
    liquidator: MessageInfoView,
)
    requires
        ledger.well_formed(),
        amount > 0,
        deposit_outcome(ledger, env, info, token, amount, valuation, encoded) is Ok,
    ensures
        ({
            let id = collateral_id_text(env.block_height as nat, info.sender);
            let deposited = deposit_outcome(
                ledger,
                env,
                info,
                token,
                amount,
                valuation,
                encoded,
            )->Ok_0.0;
            let (after, response) = liquidate_outcome(deposited, env, liquidator, id);
            &&& response.messages == seq![
                TransferView::Native {
                    denom: token,
                    amount,
                    source: env.contract_address,
                    destination: liquidator.sender,
                },
            ]
            &&& !after.has_id(id)
            &&& after.well_formed()
            &&& !ledger.has_id(id) ==> after == ledger
        }),
{
    let id = collateral_id_text(env.block_height as nat, info.sender);
    let record = deposited_record(env, info, token, amount, valuation);
    lemma_deposit_files_record(ledger, env, info, token, amount, valuation, encoded);
    lemma_put_keeps_well_formed(ledger, record);
    lemma_without_removes_id(ledger.put(record), id);
    if !ledger.has_id(id) {
        lemma_deposit_under_fresh_id(ledger, env, info, token, amount, valuation, encoded);
    }
}

/// The borrower's own operations change one field of one record and nothing
/// else: restating the valuation changes the valuation, settling the tax
/// moves the tax clock. No record comes or goes, and every record keeps its
/// identifier, token, amount and borrower. Where the caller holds no record,
/// both are refused.
pub proof fn lemma_borrower_operations_keep_holdings(
    ledger: LedgerView,
    env: EnvView,
    info: MessageInfoView,
    new_valuation: u128,
    balance: u128,
    k: int,
)
    requires
        0 <= k < ledger.collaterals.len(),
    ensures
        adjust_valuation_outcome(ledger, info, new_valuation) matches Ok((after, _)) ==> {
            &&& after.collaterals.len() == ledger.collaterals.len()
            &&& after.collaterals[k] == (CollateralView {
                valuation: after.collaterals[k].valuation,
                ..ledger.collaterals[k]
            })
            &&& k != ledger.index_of_borrower(info.sender) ==> after.collaterals[k]
                == ledger.collaterals[k]
            &&& after.collaterals[ledger.index_of_borrower(info.sender)].valuation
                == new_valuation
        },
        pay_tax_outcome(ledger, env, info, balance) matches Ok((after, _)) ==> {
            &&& after.collaterals.len() == ledger.collaterals.len()
            &&& after.collaterals[k] == (CollateralView {
                last_tax_payment: after.collaterals[k].last_tax_payment,
                ..ledger.collaterals[k]
            })
            &&& k != ledger.index_of_borrower(info.sender) ==> after.collaterals[k]
                == ledger.collaterals[k]
            &&& after.collaterals[ledger.index_of_borrower(info.sender)].last_tax_payment
                == env.block_time
        },
        !ledger.has_borrower(info.sender) ==> adjust_valuation_outcome(ledger, info, new_valuation)
            == Err::<(LedgerView, ResponseView), ContractError>(ContractError::NotFound)
            && pay_tax_outcome(ledger, env, info, balance) == Err::<
            (LedgerView, ResponseView),
            ContractError,
        >(ContractError::NotFound),
{
    if ledger.has_borrower(info.sender) {
        lemma_has_borrower(ledger, info.sender);
    }
}

/// The borrower's own operations keep identifiers apart.
pub proof fn lemma_borrower_operations_keep_well_formed(
    ledger: LedgerView,
    env: EnvView,
    info: MessageInfoView,
    new_valuation: u128,
    balance: u128,
)
    requires
        ledger.well_formed(),
    ensures
        adjust_valuation_outcome(ledger, info, new_valuation) matches Ok((after, _))
            ==> after.well_formed(),
        pay_tax_outcome(ledger, env, info, balance) matches Ok((after, _)) ==> after.well_formed(),
{
    if ledger.has_borrower(info.sender) {
        lemma_has_borrower(ledger, info.sender);
    }
}

/// Settling the tax twice at the same time costs nothing the second time:
/// right after a settlement no time has passed on the record's clock.
pub proof fn lemma_pay_tax_then_nothing_due(
    ledger: LedgerView,
    env: EnvView,
    info: MessageInfoView,
    balance1: u128,
    balance2: u128,
)
    requires
        ledger.clock_allows_tax(info.sender, env.block_time),
        pay_tax_outcome(ledger, env, info, balance1) is Ok,
    ensures
        ({
            let settled = pay_tax_outcome(ledger, env, info, balance1)->Ok_0.0;
            &&& settled.clock_allows_tax(info.sender, env.block_time)
            &&& pay_tax_outcome(settled, env, info, balance2) matches Ok((after, response))
            &&& after == settled
            &&& response.messages == seq![
                TransferView::Native {
                    denom: ledger.collaterals[ledger.index_of_borrower(info.sender)].token,
                    amount: 0,
                    source: info.sender,
                    destination: env.contract_address,
                },
            ]
        }),
{
    let i = ledger.index_of_borrower(info.sender);
    lemma_has_borrower(ledger, info.sender);
    let settled = pay_tax_outcome(ledger, env, info, balance1)->Ok_0.0;
    lemma_index_of_borrower(settled, info.sender, i);
    lemma_zero_operand(settled.collaterals[i].valuation as nat, 0, settled.tax_rate as nat);
}

/// Two ledgers whose records carry the same identifiers, place by place, have
/// the same identifiers.
proof fn lemma_same_ids(before: LedgerView, after: LedgerView, id: Seq<char>)
    requires
        before.collaterals.len() == after.collaterals.len(),
        forall|k: int|
            0 <= k < before.collaterals.len() ==> (#[trigger] after.collaterals[k]).id
                == before.collaterals[k].id,
    ensures
        after.has_id(id) <==> before.has_id(id),
{
    if before.has_id(id) {
        let k = choose|k: int|
            0 <= k < before.collaterals.len() && (#[trigger] before.collaterals[k]).id == id;
        assert(after.collaterals[k].id == id);
    }
}

/// Only a deposit brings a record into the ledger. Restating a valuation and
/// settling a tax leave the identifiers in the ledger as they are, and after
/// a liquidation every identifier in the ledger was there before: a record
/// that has been liquidated stays out until somebody deposits again.
pub proof fn lemma_only_deposit_adds_records(
    ledger: LedgerView,
    env: EnvView,
    info: MessageInfoView,
    new_valuation: u128,
    balance: u128,
    liquidated: Seq<char>,
    id: Seq<char>,
)
    ensures
        adjust_valuation_outcome(ledger, info, new_valuation) matches Ok((after, _)) ==> (
        after.has_id(id) <==> ledger.has_id(id)),
        pay_tax_outcome(ledger, env, info, balance) matches Ok((after, _)) ==> (after.has_id(id)
            <==> ledger.has_id(id)),
        liquidate_outcome(ledger, env, info, liquidated).0.has_id(id) ==> ledger.has_id(id),
{
    if ledger.has_borrower(info.sender) {
        lemma_has_borrower(ledger, info.sender);
        if let Ok((after, _)) = adjust_valuation_outcome(ledger, info, new_valuation) {
            lemma_same_ids(ledger, after, id);
        }
        if let Ok((after, _)) = pay_tax_outcome(ledger, env, info, balance) {
            lemma_same_ids(ledger, after, id);
        }
    }
    if ledger.has_id(liquidated) {
        lemma_has_id(ledger, liquidated);
    }
}

/// Every operation keeps identifiers apart: a ledger in which no two records
/// share an identifier stays so, whatever is asked of it.
pub proof fn lemma_operations_keep_well_formed(
    ledger: LedgerView,
    env: EnvView,
    info: MessageInfoView,
    msg: ExecuteMsgView,
    balance: u128,
)
    requires
        ledger.well_formed(),
    ensures
        execute_outcome(ledger, env, info, msg, balance) matches Ok((after, _))
            ==> after.well_formed(),
{
    match msg {
        ExecuteMsgView::DepositCollateral { token, amount, valuation } => {
            lemma_put_keeps_well_formed(
                ledger,
                deposited_record(env, info, token, amount, valuation),
            );
        },
        ExecuteMsgView::AdjustValuation { new_valuation } => {
            lemma_borrower_operations_keep_well_formed(ledger, env, info, new_valuation, balance);
        },
        ExecuteMsgView::PayTax => {
            lemma_borrower_operations_keep_well_formed(ledger, env, info, 0, balance);
        },
        ExecuteMsgView::LiquidateCollateral { collateral_id } => {
            lemma_without_removes_id(ledger, collateral_id);
        },
    }
}

/// No operation touches the settings of the ledger: its name, its symbol and
/// its tax rate are what they were when the ledger was created.
pub proof fn lemma_settings_never_change(
    ledger: LedgerView,
    env: EnvView,
    info: MessageInfoView,
    msg: ExecuteMsgView,
    balance: u128,
)
    ensures
        execute_outcome(ledger, env, info, msg, balance) matches Ok((after, _)) ==> {
            &&& after.name == ledger.name
            &&& after.symbol == ledger.symbol
            &&& after.tax_rate == ledger.tax_rate
        },
{
}

} // verus!
