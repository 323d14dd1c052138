//! The messages that the contract takes and the answers to its queries.

use vstd::prelude::*;
use crate::coin::Coin;
use crate::math::Decimal;

verus! {

/// The parent contract that is to receive a share of the balance.
#[derive(Clone, Debug, PartialEq, Eq)]
pub struct Parent {
    /// The parent's address.
    pub addr: String,
    /// The number of counted donations between two forwards.
    pub donating_period: u64,
    /// The share of the balance that a forward carries.
    pub part: Decimal,
}

impl Parent {
    /// The link can be served: its period is at least one donation and its
    /// share at most one whole.
    pub open spec fn wf(&self) -> bool {
        self.donating_period >= 1 && self.part.is_fraction()
    }
}

/// The configuration of a new instance.
#[derive(Clone, Debug, PartialEq, Eq)]
pub struct InstantiateMsg {
    /// The counter's first value; zero where none is given.
    pub counter: Option<u64>,
    /// What a donation must bring to count.
    pub minimal_donation: Coin,
    /// The parent contract, if there is one.
    pub parent: Option<Parent>,
}

/// A question to the contract.
#[derive(Clone, Debug, PartialEq, Eq)]
pub enum QueryMsg {
    /// The counter's value.
    Value {  },
    /// The successor of `number`; the store is not read.
    Increment { number: u64 },
}

/// The answer to a [`QueryMsg`].
#[derive(Clone, Copy, Debug, PartialEq, Eq, Structural)]
pub struct ValueResp {
    pub value: u64,
}

/// A call that may change the store or move funds.
#[derive(Clone, Debug, PartialEq, Eq)]
pub enum ExecMsg {
    /// Donate the funds that come with the call.
    Donate {  },
    /// Send the whole balance to the caller.
    Withdraw {  },
    /// Send the balance to `recipient`, of each currency no more than
    /// `funds` allows where `funds` holds an entry.
    WithdrawTo { recipient: String, funds: Option<Vec<Coin>> },
}

/// Who makes a call, and the funds that come with it.
#[derive(Clone, Debug, PartialEq, Eq)]
pub struct MessageInfo {
    pub sender: String,
    pub funds: Vec<Coin>,
}

} // verus!
