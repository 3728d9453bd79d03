//! The effects a successful request hands back to the runtime: ordered
//! outbound asset-transfer instructions and audit attributes.
//!
//! Effects are descriptive. The handlers never move assets themselves; the
//! runtime executes the instructions, in the order emitted, after persisting
//! the decision atomically.

use vstd::prelude::*;
use crate::coins::{Coin, CoinView, coins_view};

verus! {

/// One outbound transfer instruction: send `amount` to `to_address`.
#[derive(Debug, Clone, PartialEq, Eq)]
pub struct BankSend {
    pub to_address: String,
    pub amount: Vec<Coin>,
}

/// The mathematical value of a [`BankSend`].
#[verifier::ext_equal]
pub struct BankSendView {
    pub to_address: Seq<char>,
    pub amount: Seq<CoinView>,
}

impl View for BankSend {
    type V = BankSendView;

    open spec fn view(&self) -> BankSendView {
        BankSendView { to_address: self.to_address@, amount: coins_view(self.amount@) }
    }
}

/// One audit attribute: a key/value pair for the runtime's event log.
#[derive(Debug, Clone, PartialEq, Eq)]
pub struct Attribute {
    pub key: String,
    pub value: String,
}

/// The mathematical value of an [`Attribute`].
#[verifier::ext_equal]
pub struct AttributeView {
    pub key: Seq<char>,
    pub value: Seq<char>,
}

impl View for Attribute {
    type V = AttributeView;

    open spec fn view(&self) -> AttributeView {
        AttributeView { key: self.key@, value: self.value@ }
    }
}

/// Everything a successful request emits, in emission order.
#[derive(Debug, Clone, PartialEq, Eq)]
pub struct Response {
    pub messages: Vec<BankSend>,
    pub attributes: Vec<Attribute>,
}

/// The mathematical value of a [`Response`].
#[verifier::ext_equal]
pub struct ResponseView {
    pub messages: Seq<BankSendView>,
    pub attributes: Seq<AttributeView>,
}

impl ResponseView {
    /// A response that emits nothing.
    pub open spec fn empty() -> ResponseView {
        ResponseView { messages: Seq::empty(), attributes: Seq::empty() }
    }
}

impl View for Response {
    type V = ResponseView;

    open spec fn view(&self) -> ResponseView {
        ResponseView {
            messages: self.messages@.map_values(|m: BankSend| m@),
            attributes: self.attributes@.map_values(|a: Attribute| a@),
        }
    }
}

impl Response {
    /// A response that emits nothing yet.
    pub fn new() -> (r: Response)
        ensures
            r@ == ResponseView::empty(),
    {
        let r = Response { messages: Vec::new(), attributes: Vec::new() };
        proof {
            assert(r@ =~= ResponseView::empty());
        }
        r
    }

    /// Appends one transfer instruction after those already emitted.
    pub fn add_message(self, msg: BankSend) -> (r: Response)
        ensures
            r@.messages == self@.messages.push(msg@),
            r@.attributes == self@.attributes,
    {
        let mut messages = self.messages;
        messages.push(msg);
        let r = Response { messages, attributes: self.attributes };
        proof {
            assert(r@.messages =~= self@.messages.push(msg@));
        }
        r
    }

    /// Appends one audit attribute after those already emitted.
    pub fn add_attribute(self, key: String, value: String) -> (r: Response)
        ensures
            r@.messages == self@.messages,
            r@.attributes == self@.attributes.push(AttributeView { key: key@, value: value@ }),
    {
        let mut attributes = self.attributes;
        attributes.push(Attribute { key, value });
        let r = Response { messages: self.messages, attributes };
        proof {
            assert(r@.attributes =~= self@.attributes.push(
                AttributeView { key: key@, value: value@ },
            ));
        }
        r
    }
}

} // verus!
