//! The operations: create the ledger, deposit, restate a valuation, settle
//! the tax, liquidate.
//!
//! Each operation is first written down as a function on mathematical values
//! (its *outcome*), and the executable function is proved to compute it. An
//! operation that fails leaves the ledger as it was.
//!
//! Two ways lead to a record. Liquidation names a record by its identifier.
//! The borrower's own operations, restating the valuation and settling the
//! tax, name no record: they act on the oldest record that the caller holds.
//! A borrower with several deposits can therefore adjust and settle only the
//! oldest of them until it is liquidated. Whether these operations should
//! name a record instead is an open question of the design.

use vstd::prelude::*;
use crate::error::ContractError;
use crate::msg::{ExecuteMsg, ExecuteMsgView, InstantiateMsg};
use crate::state::{Collateral, CollateralState, CollateralView, Config, LedgerView};
use crate::tax::{tax_amount, tax_due, tax_fits};
use crate::text::{collateral_id, collateral_id_text, decimal, decimal_string};
use crate::transfer::{
    cw20_transfer_json,
    encode_cw20_transfer,
    Coin,
    CoinView,
    Response,
    ResponseView,
    Transfer,
    TransferView,
};

verus! {

/// Where and when an operation runs.
#[derive(Clone, Debug, PartialEq, Eq)]
pub struct Env {
    /// The height of the current block.
    pub block_height: u64,
    /// The time of the current block, in seconds.
    pub block_time: u64,
    /// The ledger's own account, which holds what is deposited.
    pub contract_address: String,
}

/// The environment as a mathematical value.
#[verifier::ext_equal]
pub struct EnvView {
    pub block_height: u64,
    pub block_time: u64,
    pub contract_address: Seq<char>,
}

impl View for Env {
    type V = EnvView;

    open spec fn view(&self) -> EnvView {
        EnvView {
            block_height: self.block_height,
            block_time: self.block_time,
            contract_address: self.contract_address@,
        }
    }
}

/// Who asks for an operation, and what they sent along.
#[derive(Clone, Debug, PartialEq, Eq)]
pub struct MessageInfo {
    pub sender: String,
    pub funds: Vec<Coin>,
}

/// The caller as a mathematical value.
#[verifier::ext_equal]
pub struct MessageInfoView {
    pub sender: Seq<char>,
    pub funds: Seq<CoinView>,
}

impl View for MessageInfo {
    type V = MessageInfoView;

    open spec fn view(&self) -> MessageInfoView {
        MessageInfoView { sender: self.sender@, funds: self.funds@.map_values(|c: Coin| c@) }
    }
}

impl MessageInfoView {
    /// The caller sent along some coin of the denomination `denom`.
    pub open spec fn has_funds_in(self, denom: Seq<char>) -> bool {
        exists|i: int| 0 <= i < self.funds.len() && (#[trigger] self.funds[i]).denom == denom
    }
}

impl MessageInfo {
    /// Whether the caller sent along some coin of the denomination `denom`.
    pub fn has_funds_in(&self, denom: &String) -> (found: bool)
        ensures
            found == self@.has_funds_in(denom@),
    {
        let n: usize = self.funds.len();
        let mut i: usize = 0;
        while i < n
            invariant
                n == self.funds.len(),
                i <= n,
                forall|k: int| 0 <= k < i ==> (#[trigger] self@.funds[k]).denom != denom@,
            decreases n - i,
        {
            if self.funds[i].denom == *denom {
                assert(self@.funds[i as int].denom == denom@);
                return true;
            }
            i += 1;
        }
        false
    }
}

/// What an operation comes to: the ledger afterwards and the response, or
/// the error.
pub type Outcome = Result<(LedgerView, ResponseView), ContractError>;

/// The executable result `r` and the ledger `after` are what `outcome` says,
/// for an operation that found the ledger as `before`.
pub open spec fn meets(
    outcome: Outcome,
    before: LedgerView,
    after: LedgerView,
    r: Result<Response, ContractError>,
) -> bool {
    match outcome {
        Ok((ledger, response)) => after == ledger && r is Ok && r->Ok_0@ == response,
        Err(e) => after == before && r == Err::<Response, ContractError>(e),
    }
}

/// The bytes of an optional message.
pub open spec fn bytes_view(encoded: Option<Vec<u8>>) -> Option<Seq<u8>> {
    match encoded {
        Some(bytes) => Some(bytes@),
        None => None,
    }
}

/// A new ledger: no records, the settings of `msg`, and the caller as owner.
pub open spec fn instantiate_outcome(info: MessageInfoView, msg: InstantiateMsg) -> (
    LedgerView,
    ResponseView,
) {
    (
        LedgerView {
            collaterals: Seq::empty(),
            name: msg.name@,
            symbol: msg.symbol@,
            tax_rate: msg.tax_rate,
        },
        ResponseView::empty().add_attribute("method"@, "instantiate"@).add_attribute(
            "owner"@,
            info.sender,
        ).add_attribute("tax_rate"@, decimal(msg.tax_rate as nat)),
    )
}

/// Creates the ledger. The caller becomes its owner.
pub fn instantiate(info: &MessageInfo, msg: InstantiateMsg) -> (r: (Config, CollateralState, Response))
    ensures
        r.0.owner@ == info@.sender,
        (r.1@, r.2@) == instantiate_outcome(info@, msg),
        r.1@.well_formed(),
{
    let config = Config { owner: info.sender.clone() };
    let response = Response::new().add_attribute(
        "method",
        String::from_str("instantiate"),
    ).add_attribute("owner", info.sender.clone()).add_attribute(
        "tax_rate",
        decimal_string(msg.tax_rate as u128),
    );
    let state = CollateralState::new(msg.name, msg.symbol, msg.tax_rate);
    (config, state, response)
}

/// The record that a deposit opens.
pub open spec fn deposited_record(
    env: EnvView,
    info: MessageInfoView,
    token: Seq<char>,
    amount: u128,
    valuation: u128,
) -> CollateralView {
    CollateralView {
        id: collateral_id_text(env.block_height as nat, info.sender),
        token,
        amount,
        valuation,
        last_tax_payment: env.block_time,
        borrower: info.sender,
    }
}

/// The one transfer that brings a deposit in, from the caller to the ledger's
/// account: through the bank where the caller sent along a coin of the
/// token's denomination, else by the message `encoded` to the token's
/// contract; none where that message is wanted and missing.
pub open spec fn deposit_transfer(
    env: EnvView,
    info: MessageInfoView,
    token: Seq<char>,
    amount: u128,
    encoded: Option<Seq<u8>>,
) -> Option<TransferView> {
    if info.has_funds_in(token) {
        Some(
            TransferView::Native {
                denom: token,
                amount,
                source: info.sender,
                destination: env.contract_address,
            },
        )
    } else {
        match encoded {
            Some(message) => Some(
                TransferView::TokenContract {
                    contract: token,
                    amount,
                    source: info.sender,
                    destination: env.contract_address,
                    message,
                },
            ),
            None => None,
        }
    }
}

/// What a deposit comes to, given the encoded message for the token's
/// contract.
///
/// A deposit of nothing is refused. Otherwise the record is filed under its
/// identifier and exactly one transfer is scheduled. A record that already
/// has the identifier, which takes the same borrower and the same block, is
/// replaced.
pub open spec fn deposit_outcome(
    ledger: LedgerView,
    env: EnvView,
    info: MessageInfoView,
    token: Seq<char>,
    amount: u128,
    valuation: u128,
    encoded: Option<Seq<u8>>,
) -> Outcome {
    if amount == 0 {
        Err(ContractError::InvalidAmount)
    } else {
        match deposit_transfer(env, info, token, amount, encoded) {
            None => Err(ContractError::TransferFailed),
            Some(transfer) => Ok(
                (
                    ledger.put(deposited_record(env, info, token, amount, valuation)),
                    ResponseView::empty().add_message(transfer).add_attribute(
                        "method"@,
                        "deposit_collateral"@,
                    ).add_attribute(
                        "collateral_id"@,
                        collateral_id_text(env.block_height as nat, info.sender),
                    ),
                ),
            ),
        }
    }
}

/// Deposits `amount` of `token`, given the message for the token's contract
/// that [`encode_cw20_transfer`] made for the ledger's account and `amount`.
/// `encoded` is read only where the caller sent along no coin of the token's
/// denomination.
pub fn deposit_with_encoding(
    state: &mut CollateralState,
    env: &Env,
    info: &MessageInfo,
    token: String,
    amount: u128,
    valuation: u128,
    encoded: Option<Vec<u8>>,
) -> (r: Result<Response, ContractError>)
    ensures
        meets(
            deposit_outcome(
                old(state)@,
                env@,
                info@,
                token@,
                amount,
                valuation,
                bytes_view(encoded),
            ),
            old(state)@,
            final(state)@,
            r,
        ),
        old(state)@.well_formed() ==> final(state)@.well_formed(),
{
    if amount == 0 {
        return Err(ContractError::InvalidAmount);
    }
    let transfer = if info.has_funds_in(&token) {
        Transfer::Native {
            denom: token.clone(),
            amount,
            source: info.sender.clone(),
            destination: env.contract_address.clone(),
        }
    } else {
        match encoded {
            Some(message) => Transfer::TokenContract {
                contract: token.clone(),
                amount,
                source: info.sender.clone(),
                destination: env.contract_address.clone(),
                message,
            },
            None => {
                return Err(ContractError::TransferFailed);
            },
        }
    };
    let id = collateral_id(env.block_height, &info.sender);
    let record = Collateral {
        id: id.clone(),
        token,
        amount,
        valuation,
        last_tax_payment: env.block_time,
        borrower: info.sender.clone(),
    };
    state.put(record);
    Ok(
        Response::new().add_message(transfer).add_attribute(
            "method",
            String::from_str("deposit_collateral"),
        ).add_attribute("collateral_id", id),
    )
}

/// What a deposit comes to.
pub open spec fn deposit_collateral_outcome(
    ledger: LedgerView,
    env: EnvView,
    info: MessageInfoView,
    token: Seq<char>,
    amount: u128,
    valuation: u128,
) -> Outcome {
    deposit_outcome(
        ledger,
        env,
        info,
        token,
        amount,
        valuation,
        cw20_transfer_json(env.contract_address, amount),
    )
}

/// Deposits `amount` of `token` as collateral, declared worth `valuation`.
///
/// The record's tax clock starts at the block's time. The deposit comes in by
/// one transfer from the caller to the ledger's account: through the bank if
/// the caller sent along a coin of the token's denomination, else by a
/// message to the token's contract.
pub fn deposit_collateral(
    state: &mut CollateralState,
    env: &Env,
    info: &MessageInfo,
    token: String,
    amount: u128,
    valuation: u128,
) -> (r: Result<Response, ContractError>)
    ensures
        meets(
            deposit_collateral_outcome(old(state)@, env@, info@, token@, amount, valuation),
            old(state)@,
            final(state)@,
            r,
        ),
        old(state)@.well_formed() ==> final(state)@.well_formed(),
{
    let encoded: Option<Vec<u8>> = if amount > 0 && !info.has_funds_in(&token) {
        encode_cw20_transfer(&env.contract_address, amount)
    } else {
        None
    };
    deposit_with_encoding(state, env, info, token, amount, valuation, encoded)
}

/// What restating the caller's valuation comes to: the oldest record of the
/// caller is worth `new_valuation` from now on; `NotFound` where the caller
/// holds no record. Any valuation is accepted, whatever the record holds.
pub open spec fn adjust_valuation_outcome(
    ledger: LedgerView,
    info: MessageInfoView,
    new_valuation: u128,
) -> Outcome {
    if !ledger.has_borrower(info.sender) {
        Err(ContractError::NotFound)
    } else {
        let i = ledger.index_of_borrower(info.sender);
        Ok(
            (
                ledger.with_records(
                    ledger.collaterals.update(
                        i,
                        CollateralView { valuation: new_valuation, ..ledger.collaterals[i] },
                    ),
                ),
                ResponseView::empty().add_attribute("method"@, "adjust_valuation"@),
            ),
        )
    }
}

/// Declares the caller's record worth `new_valuation`.
pub fn adjust_valuation(
    state: &mut CollateralState,
    info: &MessageInfo,
    new_valuation: u128,
) -> (r: Result<Response, ContractError>)
    ensures
        meets(
            adjust_valuation_outcome(old(state)@, info@, new_valuation),
            old(state)@,
            final(state)@,
            r,
        ),
        old(state)@.well_formed() ==> final(state)@.well_formed(),
        final(state)@.collaterals.len() == old(state)@.collaterals.len(),
{
    let i: usize = match state.find_by_borrower(&info.sender) {
        Some(i) => i,
        None => {
            return Err(ContractError::NotFound);
        },
    };
    state.collaterals[i].valuation = new_valuation;
    assert(state@.collaterals =~= old(state)@.collaterals.update(
        i as int,
        CollateralView { valuation: new_valuation, ..old(state)@.collaterals[i as int] },
    ));
    Ok(Response::new().add_attribute("method", String::from_str("adjust_valuation")))
}

/// What settling the caller's tax comes to, where the caller has `balance`
/// of the record's token.
///
/// The tax is that of the oldest record of the caller, for the time since it
/// was last settled. Where the balance covers it, one transfer of the tax
/// from the caller to the ledger's account is scheduled and the record's tax
/// clock is set to the block's time.
pub open spec fn pay_tax_outcome(
    ledger: LedgerView,
    env: EnvView,
    info: MessageInfoView,
    balance: u128,
) -> Outcome {
    if !ledger.has_borrower(info.sender) {
        Err(ContractError::NotFound)
    } else {
        let i = ledger.index_of_borrower(info.sender);
        let record = ledger.collaterals[i];
        let elapsed = (env.block_time - record.last_tax_payment) as nat;
        if !tax_fits(record.valuation as nat, elapsed, ledger.tax_rate as nat) {
            Err(ContractError::ArithmeticOverflow)
        } else {
            let tax = tax_amount(record.valuation as nat, elapsed, ledger.tax_rate as nat);
            if balance < tax {
                Err(ContractError::InsufficientFunds)
            } else {
                Ok(
                    (
                        ledger.with_records(
                            ledger.collaterals.update(
                                i,
                                CollateralView { last_tax_payment: env.block_time, ..record },
                            ),
                        ),
                        ResponseView::empty().add_message(
                            TransferView::Native {
                                denom: record.token,
                                amount: tax as u128,
                                source: info.sender,
                                destination: env.contract_address,
                            },
                        ).add_attribute("method"@, "pay_tax"@).add_attribute(
                            "tax_due"@,
                            decimal(tax),
                        ),
                    ),
                )
            }
        }
    }
}

/// Settles the tax on the caller's record.
///
/// `balance` is what the host's bank reports as the caller's balance in the
/// token of that record. The block's time must not lie before the time at
/// which the record's tax was last settled; [`CollateralState::clock_allows_tax`]
/// tests that.
pub fn pay_tax(
    state: &mut CollateralState,
    env: &Env,
    info: &MessageInfo,
    balance: u128,
) -> (r: Result<Response, ContractError>)
    requires
        old(state)@.clock_allows_tax(info@.sender, env@.block_time),
    ensures
        meets(pay_tax_outcome(old(state)@, env@, info@, balance), old(state)@, final(state)@, r),
        old(state)@.well_formed() ==> final(state)@.well_formed(),
        final(state)@.collaterals.len() == old(state)@.collaterals.len(),
{
    let i: usize = match state.find_by_borrower(&info.sender) {
        Some(i) => i,
        None => {
            return Err(ContractError::NotFound);
        },
    };
    let elapsed: u64 = env.block_time - state.collaterals[i].last_tax_payment;
    let tax: u128 = match tax_due(state.collaterals[i].valuation, elapsed, state.tax_rate) {
        Ok(tax) => tax,
        Err(e) => {
            return Err(e);
        },
    };
    if balance < tax {
        return Err(ContractError::InsufficientFunds);
    }
    let transfer = Transfer::Native {
        denom: state.collaterals[i].token.clone(),
        amount: tax,
        source: info.sender.clone(),
        destination: env.contract_address.clone(),
    };
    state.collaterals[i].last_tax_payment = env.block_time;
    assert(state@.collaterals =~= old(state)@.collaterals.update(
        i as int,
        CollateralView { last_tax_payment: env.block_time, ..old(state)@.collaterals[i as int] },
    ));
    Ok(
        Response::new().add_message(transfer).add_attribute(
            "method",
            String::from_str("pay_tax"),
        ).add_attribute("tax_due", decimal_string(tax)),
    )
}

/// What liquidating the record `id` comes to.
///
/// Anyone may liquidate any record, at any time. The record leaves the ledger
/// and all that it holds (its amount, not its valuation) is scheduled to move
/// from the ledger's account to the caller. Where no record has the
/// identifier, nothing changes and the response says so: that is no error,
/// so that a caller who works through a list can go on after a record that
/// somebody else has liquidated.
pub open spec fn liquidate_outcome(
    ledger: LedgerView,
    env: EnvView,
    info: MessageInfoView,
    id: Seq<char>,
) -> (LedgerView, ResponseView) {
    if ledger.has_id(id) {
        let record = ledger.collaterals[ledger.index_of_id(id)];
        (
            ledger.without(id),
            ResponseView::empty().add_message(
                TransferView::Native {
                    denom: record.token,
                    amount: record.amount,
                    source: env.contract_address,
                    destination: info.sender,
                },
            ).add_attribute("method"@, "liquidate_collateral"@).add_attribute(
                "status"@,
                "success"@,
            ),
        )
    } else {
        (
            ledger,
            ResponseView::empty().add_attribute("method"@, "liquidate_collateral"@).add_attribute(
                "status"@,
                "not found"@,
            ),
        )
    }
}

/// Takes the record `collateral_id` out of the ledger and schedules the
/// transfer of what it holds to the caller. Never fails.
pub fn liquidate_collateral(
    state: &mut CollateralState,
    env: &Env,
    info: &MessageInfo,
    collateral_id: String,
) -> (r: Result<Response, ContractError>)
    ensures
        r is Ok,
        (final(state)@, r->Ok_0@) == liquidate_outcome(old(state)@, env@, info@, collateral_id@),
        old(state)@.well_formed() ==> final(state)@.well_formed(),
{
    match state.remove_by_id(&collateral_id) {
        Ok(record) => Ok(
            Response::new().add_message(
                Transfer::Native {
                    denom: record.token,
                    amount: record.amount,
                    source: env.contract_address.clone(),
                    destination: info.sender.clone(),
                },
            ).add_attribute("method", String::from_str("liquidate_collateral")).add_attribute(
                "status",
                String::from_str("success"),
            ),
        ),
        Err(_) => Ok(
            Response::new().add_attribute(
                "method",
                String::from_str("liquidate_collateral"),
            ).add_attribute("status", String::from_str("not found")),
        ),
    }
}

/// What an operation comes to, where the caller has `balance` of the token
/// of the record they hold.
pub open spec fn execute_outcome(
    ledger: LedgerView,
    env: EnvView,
    info: MessageInfoView,
    msg: ExecuteMsgView,
    balance: u128,
) -> Outcome {
    match msg {
        ExecuteMsgView::DepositCollateral {
            token,
            amount,
            valuation,
        } => deposit_collateral_outcome(ledger, env, info, token, amount, valuation),
        ExecuteMsgView::AdjustValuation { new_valuation } => adjust_valuation_outcome(
            ledger,
            info,
            new_valuation,
        ),
        ExecuteMsgView::PayTax => pay_tax_outcome(ledger, env, info, balance),
        ExecuteMsgView::LiquidateCollateral { collateral_id } => Ok(
            liquidate_outcome(ledger, env, info, collateral_id),
        ),
    }
}

/// Carries out one operation.
///
/// `balance` is read only by `PayTax`: it is what the host's bank reports as
/// the caller's balance in the token of the record they hold. For `PayTax`
/// the block's time must not lie before the time at which that record's tax
/// was last settled.
pub fn execute(
    state: &mut CollateralState,
    env: &Env,
    info: &MessageInfo,
    msg: ExecuteMsg,
    balance: u128,
) -> (r: Result<Response, ContractError>)
    requires
        msg is PayTax ==> old(state)@.clock_allows_tax(info@.sender, env@.block_time),
    ensures
        meets(
            execute_outcome(old(state)@, env@, info@, msg@, balance),
            old(state)@,
            final(state)@,
            r,
        ),
        old(state)@.well_formed() ==> final(state)@.well_formed(),
{
    match msg {
        ExecuteMsg::DepositCollateral { token, amount, valuation } => deposit_collateral(
            state,
            env,
            info,
            token,
            amount,
            valuation,
        ),
        ExecuteMsg::AdjustValuation { new_valuation } => adjust_valuation(
            state,
            info,
            new_valuation,
        ),
        ExecuteMsg::PayTax {} => pay_tax(state, env, info, balance),
        ExecuteMsg::LiquidateCollateral { collateral_id } => liquidate_collateral(
            state,
            env,
            info,
            collateral_id,
        ),
    }
}

} // verus!
