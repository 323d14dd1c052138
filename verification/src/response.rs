//! What a handler hands back: requests to other contracts and to the bank,
//! and attributes that describe the call.

use vstd::prelude::*;
use crate::coin::{Coin, CoinView, coins_view};

verus! {

/// What an [`Attribute`] stands for.
pub struct AttributeView {
    pub key: Seq<char>,
    pub value: Seq<char>,
}

/// A key and a value that describe the call.
#[derive(Clone, Debug, PartialEq, Eq)]
pub struct Attribute {
    pub key: String,
    pub value: String,
}

impl View for Attribute {
    type V = AttributeView;

    open spec fn view(&self) -> AttributeView {
        AttributeView { key: self.key@, value: self.value@ }
    }
}

/// What a [`CosmosMsg`] stands for.
pub enum CosmosMsgView {
    Donate { contract_addr: Seq<char>, funds: Seq<CoinView> },
    Send { to_address: Seq<char>, amount: Seq<CoinView> },
}

/// A request that the host carries out once the handler has returned.
#[derive(Clone, Debug, PartialEq, Eq)]
pub enum CosmosMsg {
    /// Donate `funds` to the contract at `contract_addr`.
    Donate { contract_addr: String, funds: Vec<Coin> },
    /// Have the bank move `amount` from this contract to `to_address`.
    Send { to_address: String, amount: Vec<Coin> },
}

impl View for CosmosMsg {
    type V = CosmosMsgView;

    open spec fn view(&self) -> CosmosMsgView {
        match self {
            CosmosMsg::Donate { contract_addr, funds } => CosmosMsgView::Donate {
                contract_addr: contract_addr@,
                funds: coins_view(funds@),
            },
            CosmosMsg::Send { to_address, amount } => CosmosMsgView::Send {
                to_address: to_address@,
                amount: coins_view(amount@),
            },
        }
    }
}

/// What a [`Response`] stands for.
pub struct ResponseView {
    pub messages: Seq<CosmosMsgView>,
    pub attributes: Seq<AttributeView>,
}

/// The outcome of a call that succeeded.
#[derive(Clone, Debug, PartialEq, Eq)]
pub struct Response {
    pub messages: Vec<CosmosMsg>,
    pub attributes: Vec<Attribute>,
}

impl View for Response {
    type V = ResponseView;

    open spec fn view(&self) -> ResponseView {
        ResponseView {
            messages: Seq::new(self.messages@.len(), |i: int| self.messages@[i]@),
            attributes: Seq::new(self.attributes@.len(), |i: int| self.attributes@[i]@),
        }
    }
}

impl ResponseView {
    /// The response that asks for nothing and says nothing.
    pub open spec fn empty() -> ResponseView {
        ResponseView { messages: Seq::empty(), attributes: Seq::empty() }
    }

    /// This response with one more request.
    pub open spec fn add_message(self, msg: CosmosMsgView) -> ResponseView {
        ResponseView { messages: self.messages.push(msg), attributes: self.attributes }
    }

    /// This response with one more attribute.
    pub open spec fn add_attribute(self, key: Seq<char>, value: Seq<char>) -> ResponseView {
        ResponseView {
            messages: self.messages,
            attributes: self.attributes.push(AttributeView { key, value }),
        }
    }
}

impl Response {
    /// A response without requests or attributes.
    pub fn new() -> (resp: Response)
        ensures
            resp@ == ResponseView::empty(),
    {
        let resp = Response { messages: Vec::new(), attributes: Vec::new() };
        assert(resp@.messages =~= Seq::empty());
        assert(resp@.attributes =~= Seq::empty());
        resp
    }

    /// Appends a request.
    pub fn add_message(self, msg: CosmosMsg) -> (resp: Response)
        ensures
            resp@ == self@.add_message(msg@),
    {
        let mut resp = self;
        resp.messages.push(msg);
        assert(resp@.messages =~= self@.messages.push(msg@));
        assert(resp@.attributes =~= self@.attributes);
        resp
    }

    /// Appends an attribute.
    pub fn add_attribute(self, key: &str, value: String) -> (resp: Response)
        ensures
            resp@ == self@.add_attribute(key@, value@),
    {
        let mut resp = self;
        resp.attributes.push(Attribute { key: key.to_owned(), value });
        assert(resp@.attributes =~= self@.attributes.push(
            AttributeView { key: key@, value: value@ },
        ));
        assert(resp@.messages =~= self@.messages);
        resp
    }
}

} // verus!
