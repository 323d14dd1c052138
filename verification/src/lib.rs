//! A counting contract: a counter that grows with every donation that
//! reaches a minimal amount, an owner who may withdraw what was collected,
//! an optional parent contract that receives a share of the balance every
//! few donations, and an upgrade path from earlier layouts of the stored
//! state.
//!
//! Every handler is a function from the stored records, the call's
//! arguments and the balance that the bank reports to the new records and
//! a [`response::Response`].

use vstd::prelude::*;
use crate::coin::{Coin, coins_view};
use crate::contract::exec::{donate_in_range, donate_post, withdraw_post, withdraw_to_post};
use crate::contract::query::value_of;
use crate::contract::{instantiate_store, migrate_post};
use crate::error::{ContractError, StdError};
use crate::math::DECIMAL_FRACTIONAL;
use crate::msg::{ExecMsg, InstantiateMsg, MessageInfo, QueryMsg, ValueResp};
use crate::response::{Response, ResponseView};
use crate::state::Store;

pub mod coin;
pub mod contract;
pub mod error;
pub mod laws;
pub mod math;
pub mod msg;
pub mod response;
pub mod state;

verus! {

/// Sets up an instance from `msg`, with the caller as its owner.
pub fn instantiate(
    store: &mut Store,
    info: MessageInfo,
    msg: InstantiateMsg,
) -> (result: Result<Response, StdError>)
    requires
        msg.parent matches Some(parent) ==> parent.wf(),
    ensures
        result matches Ok(resp) && resp@ == ResponseView::empty(),
        final(store)@ == instantiate_store(old(store)@, msg, info.sender@),
        old(store)@.parent_donation is None ==> final(store)@.wf(),
        final(store)@.state matches Some(state) && state.donating_parent != Some(0nat),
        msg.parent is Some ==> (final(store)@.parent_donation matches Some(link) && link.part
            <= DECIMAL_FRACTIONAL),
{
    contract::instantiate(store, msg, info)
}

/// Answers a question: the counter's value, or the successor of a number.
pub fn query(store: &Store, msg: QueryMsg) -> (result: Result<ValueResp, StdError>)
    requires
        msg matches QueryMsg::Increment { number } ==> number < u64::MAX,
    ensures
        match msg {
            QueryMsg::Value {  } => result == value_of(*store),
            QueryMsg::Increment { number } => result == Ok::<ValueResp, StdError>(
                ValueResp { value: (number + 1) as u64 },
            ),
        },
{
    match msg {
        QueryMsg::Value {  } => contract::query::value(store),
        QueryMsg::Increment { number } => contract::query::increment(number),
    }
}

/// Carries out a call: a donation of the funds that come with it, or a
/// withdrawal of `balance`, which is what the bank holds for the contract.
/// Only a donation can change the store.
pub fn execute(
    store: &mut Store,
    balance: Vec<Coin>,
    info: MessageInfo,
    msg: ExecMsg,
) -> (result: Result<Response, ContractError>)
    requires
        msg is Donate ==> donate_in_range(
            old(store)@,
            coins_view(info.funds@),
            coins_view(balance@),
        ),
    ensures
        match msg {
            ExecMsg::Donate {  } => donate_post(
                *old(store),
                *final(store),
                coins_view(balance@),
                info,
                result,
            ),
            ExecMsg::Withdraw {  } => {
                &&& withdraw_post(*old(store), coins_view(balance@), info, result)
                &&& *final(store) == *old(store)
            },
            ExecMsg::WithdrawTo { recipient, funds } => {
                &&& withdraw_to_post(
                    *old(store),
                    coins_view(balance@),
                    info,
                    recipient,
                    funds,
                    result,
                )
                &&& *final(store) == *old(store)
            },
        },
{
    match msg {
        ExecMsg::Donate {  } => contract::exec::donate(store, balance, info),
        ExecMsg::Withdraw {  } => contract::exec::withdraw(store, balance, info),
        ExecMsg::WithdrawTo { recipient, funds } => contract::exec::withdraw_to(
            store,
            balance,
            info,
            recipient,
            funds,
        ),
    }
}

/// Brings the store to the current layout.
pub fn migrate(store: &mut Store) -> (result: Result<Response, ContractError>)
    ensures
        migrate_post(*old(store), *final(store), result),
{
    contract::migrate(store)
}

} // verus!
