//! What an operation hands back: the transfers that the host is to carry out
//! once the operation has returned, in order, and attributes for auditing.

use vstd::prelude::*;

verus! {

/// An amount of one denomination.
#[derive(Clone, Debug, PartialEq, Eq)]
pub struct Coin {
    pub denom: String,
    pub amount: u128,
}

/// A coin as a mathematical value.
#[verifier::ext_equal]
pub struct CoinView {
    pub denom: Seq<char>,
    pub amount: u128,
}

impl View for Coin {
    type V = CoinView;

    open spec fn view(&self) -> CoinView {
        CoinView { denom: self.denom@, amount: self.amount }
    }
}

/// A transfer that the host is to carry out after the operation.
///
/// The ledger only says what is to move and between whom. It does not move
/// anything itself, and it keeps no account of what the host then did. Nor
/// does it keep by which of the two ways a deposit came in: a tax and a
/// liquidated deposit always move through the bank.
#[derive(Clone, Debug, PartialEq, Eq)]
pub enum Transfer {
    /// A native asset moves through the host's bank.
    Native { denom: String, amount: u128, source: String, destination: String },
    /// A token moves by a message to the contract that manages it. `message`
    /// is that message, ready to send.
    TokenContract {
        contract: String,
        amount: u128,
        source: String,
        destination: String,
        message: Vec<u8>,
    },
}

/// A transfer as a mathematical value.
#[verifier::ext_equal]
pub enum TransferView {
    Native { denom: Seq<char>, amount: u128, source: Seq<char>, destination: Seq<char> },
    TokenContract {
        contract: Seq<char>,
        amount: u128,
        source: Seq<char>,
        destination: Seq<char>,
        message: Seq<u8>,
    },
}

impl View for Transfer {
    type V = TransferView;

    open spec fn view(&self) -> TransferView {
        match self {
            Transfer::Native { denom, amount, source, destination } => TransferView::Native {
                denom: denom@,
                amount: *amount,
                source: source@,
                destination: destination@,
            },
            Transfer::TokenContract {
                contract,
                amount,
                source,
                destination,
                message,
            } => TransferView::TokenContract {
                contract: contract@,
                amount: *amount,
                source: source@,
                destination: destination@,
                message: message@,
            },
        }
    }
}

/// A key and a value that describe what an operation did.
#[derive(Clone, Debug, PartialEq, Eq)]
pub struct Attribute {
    pub key: String,
    pub value: String,
}

impl View for Attribute {
    type V = (Seq<char>, Seq<char>);

    open spec fn view(&self) -> (Seq<char>, Seq<char>) {
        (self.key@, self.value@)
    }
}

/// The result of an operation that went through.
#[derive(Clone, Debug, PartialEq, Eq)]
pub struct Response {
    /// The transfers to carry out, in this order.
    pub messages: Vec<Transfer>,
    /// What happened, for auditing. These are no part of the ledger.
    pub attributes: Vec<Attribute>,
}

/// A response as a mathematical value.
#[verifier::ext_equal]
pub struct ResponseView {
    pub messages: Seq<TransferView>,
    pub attributes: Seq<(Seq<char>, Seq<char>)>,
}

impl View for Response {
    type V = ResponseView;

    open spec fn view(&self) -> ResponseView {
        ResponseView {
            messages: self.messages@.map_values(|m: Transfer| m@),
            attributes: self.attributes@.map_values(|a: Attribute| a@),
        }
    }
}

impl ResponseView {
    /// The response with nothing in it.
    pub open spec fn empty() -> ResponseView {
        ResponseView { messages: Seq::empty(), attributes: Seq::empty() }
    }

    /// The response with one more transfer, behind the others.
    pub open spec fn add_message(self, message: TransferView) -> ResponseView {
        ResponseView { messages: self.messages.push(message), ..self }
    }

    /// The response with one more attribute, behind the others.
    pub open spec fn add_attribute(self, key: Seq<char>, value: Seq<char>) -> ResponseView {
        ResponseView { attributes: self.attributes.push((key, value)), ..self }
    }
}

impl Response {
    /// A response with nothing in it.
    pub fn new() -> (response: Self)
        ensures
            response@ == ResponseView::empty(),
    {
        Response { messages: Vec::new(), attributes: Vec::new() }
    }

    /// Adds a transfer behind those that are there.
    pub fn add_message(self, message: Transfer) -> (response: Self)
        ensures
            response@ == self@.add_message(message@),
    {
        let mut response = self;
        response.messages.push(message);
        response
    }

    /// Adds an attribute behind those that are there.
    pub fn add_attribute(self, key: &str, value: String) -> (response: Self)
        ensures
            response@ == self@.add_attribute(key@, value@),
    {
        let mut response = self;
        response.attributes.push(Attribute { key: String::from_str(key), value });
        response
    }
}

/// `cosmwasm_std::StdError`, the error of the host's encoder. Nothing is
/// claimed of it: a value of this type is only told apart from a success.
#[verifier::external_type_specification]
#[verifier::external_body]
pub struct ExStdError(cosmwasm_std::StdError);

/// The bytes of the message that asks a token contract to move `amount` of
/// its token from the sender of the message to `recipient`, or `None` where
/// the message cannot be written down. The encoding is the token standard's
/// own; this library does not say what the bytes are.
pub uninterp spec fn cw20_transfer_json(recipient: Seq<char>, amount: u128) -> Option<Seq<u8>>;

/// Encodes a token contract's transfer message.
///
/// Trusted, not proved: the body calls `cosmwasm_std::to_json_binary` on a
/// `cw20::Cw20ExecuteMsg::Transfer` with this recipient and this amount. The
/// contract claims only that the call is a function of the two: the same
/// recipient and amount give the same bytes, or fail alike.
#[verifier::external_body]
fn to_cw20_transfer_binary(
    recipient: &String,
    amount: u128,
) -> (r: Result<Vec<u8>, cosmwasm_std::StdError>)
    ensures
        match r {
            Ok(bytes) => cw20_transfer_json(recipient@, amount) == Some(bytes@),
            Err(_) => cw20_transfer_json(recipient@, amount) is None,
        },
{
    let message = cw20::Cw20ExecuteMsg::Transfer {
        recipient: recipient.clone(),
        amount: cosmwasm_std::Uint128::new(amount),
    };
    match cosmwasm_std::to_json_binary(&message) {
        Ok(binary) => Ok(binary.0),
        Err(e) => Err(e),
    }
}

/// The transfer message for a token contract, ready to send, or `None` where
/// it cannot be produced.
pub fn encode_cw20_transfer(recipient: &String, amount: u128) -> (encoded: Option<Vec<u8>>)
    ensures
        match encoded {
            Some(bytes) => cw20_transfer_json(recipient@, amount) == Some(bytes@),
            None => cw20_transfer_json(recipient@, amount) is None,
        },
{
    match to_cw20_transfer_binary(recipient, amount) {
        Ok(bytes) => Some(bytes),
        Err(_) => None,
    }
}

} // verus!
