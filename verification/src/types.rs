//! What the host tells the bridge about a call, and what the bridge answers.
use vstd::prelude::*;

verus! {

/// An amount of one denomination.
#[derive(Debug, Clone, PartialEq, Eq)]
pub struct Coin {
    pub denom: String,
    pub amount: u128,
}

/// A [`Coin`] with its denomination as a sequence of characters.
pub struct CoinView {
    pub denom: Seq<char>,
    pub amount: u128,
}

impl View for Coin {
    type V = CoinView;

    open spec fn view(&self) -> CoinView {
        CoinView { denom: self.denom@, amount: self.amount }
    }
}

/// The block that a call runs in, and the bridge's own address.
#[derive(Debug, Clone, PartialEq, Eq)]
pub struct Env {
    pub height: u64,
    pub contract_address: String,
}

/// Who calls, as the host authenticated them, and the funds sent along. The host
/// has credited these funds to the bridge before the call.
#[derive(Debug, Clone, PartialEq, Eq)]
pub struct MessageInfo {
    pub sender: String,
    pub funds: Vec<Coin>,
}

impl MessageInfo {
    /// The funds sent along, each coin by its view.
    pub open spec fn funds_view(self) -> Seq<CoinView> {
        self.funds@.map_values(|coin: Coin| coin@)
    }
}

/// A key and a value for the host's event log.
#[derive(Debug, Clone, PartialEq, Eq)]
pub struct Attribute {
    pub key: String,
    pub value: String,
}

/// An [`Attribute`] with its texts as sequences of characters.
pub struct AttributeView {
    pub key: Seq<char>,
    pub value: Seq<char>,
}

impl View for Attribute {
    type V = AttributeView;

    open spec fn view(&self) -> AttributeView {
        AttributeView { key: self.key@, value: self.value@ }
    }
}

/// An instruction to the host's bank: pay `amount` from the bridge's balance to
/// `to_address`. The host carries it out after the call has succeeded.
#[derive(Debug, Clone, PartialEq, Eq)]
pub struct BankTransfer {
    pub to_address: String,
    pub amount: Vec<Coin>,
}

/// A [`BankTransfer`] with its texts as sequences of characters.
pub struct BankTransferView {
    pub to_address: Seq<char>,
    pub amount: Seq<CoinView>,
}

impl View for BankTransfer {
    type V = BankTransferView;

    open spec fn view(&self) -> BankTransferView {
        BankTransferView {
            to_address: self.to_address@,
            amount: self.amount@.map_values(|coin: Coin| coin@),
        }
    }
}

/// The answer to a call that succeeded.
#[derive(Debug, Clone, PartialEq, Eq)]
pub struct Response {
    pub messages: Vec<BankTransfer>,
    pub attributes: Vec<Attribute>,
}

/// A [`Response`] with its parts as sequences.
pub struct ResponseView {
    pub messages: Seq<BankTransferView>,
    pub attributes: Seq<AttributeView>,
}

impl View for Response {
    type V = ResponseView;

    open spec fn view(&self) -> ResponseView {
        ResponseView {
            messages: self.messages@.map_values(|transfer: BankTransfer| transfer@),
            attributes: self.attributes@.map_values(|attribute: Attribute| attribute@),
        }
    }
}

/// The answer that carries these attributes and no instruction to the bank.
pub open spec fn plain_response(attributes: Seq<AttributeView>) -> ResponseView {
    ResponseView { messages: Seq::empty(), attributes }
}

impl Default for Response {
    /// The empty answer.
    fn default() -> (response: Response)
        ensures
            response@ == plain_response(Seq::empty()),
    {
        let response = Response { messages: Vec::new(), attributes: Vec::new() };
        assert(response@.messages =~= Seq::empty());
        assert(response@.attributes =~= Seq::empty());
        response
    }
}

/// The attribute with this key and this value.
pub open spec fn attr_view(key: Seq<char>, value: Seq<char>) -> AttributeView {
    AttributeView { key, value }
}

/// The instruction to pay `amount` of `denom` to `to_address`.
pub open spec fn transfer_view(to_address: Seq<char>, denom: Seq<char>, amount: u128)
    -> BankTransferView {
    BankTransferView { to_address, amount: seq![CoinView { denom, amount }] }
}

/// Makes an attribute.
pub fn attr(key: &str, value: String) -> (attribute: Attribute)
    ensures
        attribute@ == attr_view(key@, value@),
{
    Attribute { key: key.to_owned(), value }
}

} // verus!
