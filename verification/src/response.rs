//! What a handler hands back to the host: attributes for observers and,
//! for a withdrawal, an instruction to move funds.

use vstd::prelude::*;
use crate::msg::{coins_view, Coin, CoinView};

verus! {

/// A key-value pair reported with a successful call.
#[derive(Clone, Debug, PartialEq, Eq)]
pub struct Attribute {
    pub key: String,
    pub value: String,
}

/// An instruction for the host to move `amount` out of the contract's
/// custody to `to_address`. The host carries it out after the handler returns.
#[derive(Clone, Debug, PartialEq, Eq)]
pub struct Transfer {
    pub to_address: String,
    pub amount: Vec<Coin>,
}

/// The acknowledgement of a successful call.
#[derive(Clone, Debug, PartialEq, Eq)]
pub struct Response {
    pub messages: Vec<Transfer>,
    pub attributes: Vec<Attribute>,
}

/// The mathematical value of a [`Transfer`].
pub struct TransferView {
    pub to_address: Seq<char>,
    pub amount: Seq<CoinView>,
}

/// The mathematical value of a [`Response`]: the transfers in order, and the
/// attributes in order as pairs of key and value.
pub struct ResponseView {
    pub messages: Seq<TransferView>,
    pub attributes: Seq<(Seq<char>, Seq<char>)>,
}

impl View for Attribute {
    type V = (Seq<char>, Seq<char>);

    open spec fn view(&self) -> (Seq<char>, Seq<char>) {
        (self.key@, self.value@)
    }
}

impl View for Transfer {
    type V = TransferView;

    open spec fn view(&self) -> TransferView {
        TransferView { to_address: self.to_address@, amount: coins_view(self.amount@) }
    }
}

impl View for Response {
    type V = ResponseView;

    open spec fn view(&self) -> ResponseView {
        ResponseView {
            messages: self.messages@.map_values(|t: Transfer| t@),
            attributes: self.attributes@.map_values(|a: Attribute| a@),
        }
    }
}

/// The acknowledgement that carries nothing.
pub open spec fn empty_response() -> ResponseView {
    ResponseView { messages: Seq::empty(), attributes: Seq::empty() }
}

/// The acknowledgement of a mutation: what was done, who asked, and the value
/// concerned, in that order and with no transfer.
pub open spec fn acknowledgement(action: Seq<char>, sender: Seq<char>, value: Seq<char>)
    -> ResponseView {
    ResponseView {
        messages: Seq::empty(),
        attributes: seq![("action"@, action), ("sender"@, sender), ("value"@, value)],
    }
}

impl ResponseView {
    /// This acknowledgement with one more transfer at the end.
    pub open spec fn with_message(self, transfer: TransferView) -> ResponseView {
        ResponseView { messages: self.messages.push(transfer), attributes: self.attributes }
    }
}

impl Response {
    /// An acknowledgement with no attribute and no transfer.
    pub fn new() -> (r: Response)
        ensures
            r@ == empty_response(),
    {
        let r = Response { messages: Vec::new(), attributes: Vec::new() };
        assert(r@.messages =~= Seq::empty());
        assert(r@.attributes =~= Seq::empty());
        r
    }

    /// Appends the attribute `key = value`.
    pub fn add_attribute(self, key: &str, value: String) -> (r: Response)
        ensures
            r@.messages == self@.messages,
            r@.attributes == self@.attributes.push((key@, value@)),
    {
        let mut r = self;
        let attribute = Attribute { key: key.to_owned(), value };
        r.attributes.push(attribute);
        assert(r@.attributes =~= self@.attributes.push((key@, value@)));
        assert(r@.messages =~= self@.messages);
        r
    }

    /// Appends a transfer for the host to carry out.
    pub fn add_message(self, transfer: Transfer) -> (r: Response)
        ensures
            r@ == self@.with_message(transfer@),
    {
        let mut r = self;
        r.messages.push(transfer);
        assert(r@.messages =~= self@.messages.push(transfer@));
        assert(r@.attributes =~= self@.attributes);
        r
    }
}

/// Builds the acknowledgement of a mutation.
pub fn get_response(action: &str, sender: &str, value: String) -> (r: Response)
    ensures
        r@ == acknowledgement(action@, sender@, value@),
{
    let r = Response::new().add_attribute("action", action.to_owned()).add_attribute(
        "sender",
        sender.to_owned(),
    ).add_attribute("value", value);
    assert(r@.attributes =~= acknowledgement(action@, sender@, value@).attributes);
    r
}

} // verus!
