//! The calls that change the store or move funds.

use vstd::prelude::*;
use crate::coin::{Coin, CoinView, coins_view};
use crate::error::{ContractError, ContractErrorView, Record, StdError};
use crate::math::{
    DECIMAL_FRACTIONAL,
    Decimal,
    checked_multiply_ratio,
    decimal_digits,
    mul_decimal,
    share_of,
    u64_to_string,
};
use crate::msg::MessageInfo;
use crate::response::{CosmosMsg, CosmosMsgView, Response, ResponseView};
use crate::state::{StateView, Store, StoreView};

verus! {

/// The coin is of the minimal donation's currency and is no smaller.
pub open spec fn reaches(coin: CoinView, minimal: CoinView) -> bool {
    coin.denom == minimal.denom && coin.amount >= minimal.amount
}

/// The funds make a donation that counts: nothing is asked for, or one of
/// the coins reaches the minimal donation.
pub open spec fn counts(minimal: CoinView, funds: Seq<CoinView>) -> bool {
    minimal.amount == 0 || exists|i: int| 0 <= i < funds.len() && reaches(#[trigger] funds[i], minimal)
}

/// The countdown to the next forward after one more counted donation: one
/// less, and the whole period again once nothing is left.
pub open spec fn countdown_next(left: nat, period: nat) -> nat {
    if left == 1 {
        period
    } else {
        (left - 1) as nat
    }
}

/// Of each coin of the balance, the part that a share of `part` atomic
/// units takes, rounded down. A coin whose part is zero stays in the list.
pub open spec fn shares(balance: Seq<CoinView>, part: nat) -> Seq<CoinView> {
    Seq::new(
        balance.len(),
        |i: int| CoinView { denom: balance[i].denom, amount: share_of(balance[i].amount, part) },
    )
}

/// A donation of `funds` counts and is the one that sets off a forward to
/// the parent.
pub open spec fn forwards(store: StoreView, funds: Seq<CoinView>) -> bool {
    &&& store.state matches Some(state)
    &&& counts(state.minimal_donation, funds)
    &&& state.donating_parent == Some(1nat)
}

/// The record that a donation of `funds` needs and the store lacks, if any.
pub open spec fn donate_fault(store: StoreView, funds: Seq<CoinView>) -> Option<StdError> {
    if store.state is None {
        Some(StdError::NotFound { kind: Record::State })
    } else if forwards(store, funds) && store.parent_donation is None {
        Some(StdError::NotFound { kind: Record::ParentDonation })
    } else {
        None
    }
}

/// The account after a donation of `funds`, where the store holds what the
/// donation needs.
pub open spec fn donate_state(store: StoreView, funds: Seq<CoinView>) -> StateView {
    let state = store.state->0;
    if counts(state.minimal_donation, funds) {
        StateView {
            counter: state.counter + 1,
            donating_parent: match state.donating_parent {
                Some(left) => Some(
                    countdown_next(left, store.parent_donation->0.donating_parent_period),
                ),
                None => None,
            },
            ..state
        }
    } else {
        state
    }
}

/// What a donation answers: the forward to the parent where one is due,
/// then the call's attributes, with the counter as the donation leaves it.
pub open spec fn donate_response(
    store: StoreView,
    sender: Seq<char>,
    funds: Seq<CoinView>,
    balance: Seq<CoinView>,
) -> ResponseView {
    let parent = store.parent_donation->0;
    let first = if forwards(store, funds) {
        ResponseView::empty().add_message(
            CosmosMsgView::Donate {
                contract_addr: parent.address,
                funds: shares(balance, parent.part),
            },
        ).add_attribute("donated_to_parent"@, parent.address)
    } else {
        ResponseView::empty()
    };
    first.add_attribute("action"@, "poke"@).add_attribute("sender"@, sender).add_attribute(
        "counter"@,
        decimal_digits(donate_state(store, funds).counter),
    )
}

/// The numbers of a donation of `funds` stay within what the machine holds:
/// where it counts, the counter can grow and the countdown is not at zero,
/// and where it sets off a forward, each coin's share fits an amount.
pub open spec fn donate_in_range(
    store: StoreView,
    funds: Seq<CoinView>,
    balance: Seq<CoinView>,
) -> bool {
    store.state matches Some(state) ==> counts(state.minimal_donation, funds) ==> {
        &&& state.counter < u64::MAX
        &&& state.donating_parent != Some(0nat)
        &&& forwards(store, funds) ==> (store.parent_donation matches Some(parent) ==> forall|
            i: int,
        |
            0 <= i < balance.len() ==> share_of(#[trigger] balance[i].amount, parent.part)
                <= u128::MAX)
    }
}

/// What a donation leaves behind: on success the account as the donation
/// makes it, every other record as it was, and the donation's answer; on
/// failure the missing record's name and the store untouched.
pub open spec fn donate_post(
    before: Store,
    after: Store,
    balance: Seq<CoinView>,
    info: MessageInfo,
    result: Result<Response, ContractError>,
) -> bool {
    let funds = coins_view(info.funds@);
    match result {
        Ok(resp) => {
            &&& donate_fault(before@, funds) is None
            &&& after@ == (StoreView { state: Some(donate_state(before@, funds)), ..before@ })
            &&& resp@ == donate_response(before@, info.sender@, funds, balance)
        },
        Err(fault) => {
            &&& donate_fault(before@, funds) is Some
            &&& fault@ == ContractErrorView::Std(donate_fault(before@, funds)->0)
            &&& after == before
        },
    }
}

/// Tells whether one of the coins reaches the minimal donation.
pub fn reaches_minimal(funds: &Vec<Coin>, minimal: &Coin) -> (found: bool)
    ensures
        found == exists|i: int|
            0 <= i < funds.len() && reaches(#[trigger] coins_view(funds@)[i], minimal@),
{
    let mut i: usize = 0;
    while i < funds.len()
        invariant
            i <= funds.len(),
            forall|j: int| 0 <= j < i ==> !reaches(#[trigger] coins_view(funds@)[j], minimal@),
        decreases funds.len() - i,
    {
        if funds[i].denom == minimal.denom && funds[i].amount >= minimal.amount {
            assert(reaches(coins_view(funds@)[i as int], minimal@));
            return true;
        }
        i += 1;
    }
    false
}

/// Tells whether a donation of `funds` would set off a forward to the
/// parent, for which the contract's balance has to be known.
pub fn donation_forwards(store: &Store, funds: &Vec<Coin>) -> (due: bool)
    ensures
        due == forwards(store@, coins_view(funds@)),
{
    match &store.state {
        Some(state) => {
            let left_is_one = match state.donating_parent {
                Some(left) => left == 1,
                None => false,
            };
            left_is_one && (state.minimal_donation.amount == 0 || reaches_minimal(
                funds,
                &state.minimal_donation,
            ))
        },
        None => false,
    }
}

/// Tells whether the share `part` of each coin of the balance fits an
/// amount.
pub fn shares_fit(balance: &Vec<Coin>, part: Decimal) -> (fit: bool)
    ensures
        fit == forall|i: int|
            0 <= i < balance.len() ==> share_of(
                #[trigger] coins_view(balance@)[i].amount,
                part.atomics as nat,
            ) <= u128::MAX,
{
    let mut i: usize = 0;
    while i < balance.len()
        invariant
            i <= balance.len(),
            forall|j: int|
                0 <= j < i ==> share_of(
                    #[trigger] coins_view(balance@)[j].amount,
                    part.atomics as nat,
                ) <= u128::MAX,
        decreases balance.len() - i,
    {
        assert(coins_view(balance@)[i as int].amount == balance@[i as int].amount);
        if checked_multiply_ratio(balance[i].amount, part.atomics, DECIMAL_FRACTIONAL).is_none() {
            return false;
        }
        i += 1;
    }
    true
}

/// Tells whether the numbers of a donation stay within what the machine
/// holds, which [`donate`] asks of its caller.
pub fn donation_in_range(store: &Store, funds: &Vec<Coin>, balance: &Vec<Coin>) -> (fits: bool)
    ensures
        fits == donate_in_range(store@, coins_view(funds@), coins_view(balance@)),
{
    match &store.state {
        Some(state) => {
            if state.minimal_donation.amount == 0 || reaches_minimal(
                funds,
                &state.minimal_donation,
            ) {
                if state.counter == u64::MAX {
                    return false;
                }
                match state.donating_parent {
                    Some(left) => {
                        if left == 0 {
                            false
                        } else if left == 1 {
                            match &store.parent_donation {
                                Some(parent) => shares_fit(balance, parent.part),
                                None => true,
                            }
                        } else {
                            true
                        }
                    },
                    None => true,
                }
            } else {
                true
            }
        },
        None => true,
    }
}

/// Takes the share `part` of each coin of the balance.
pub fn forward_funds(balance: Vec<Coin>, part: Decimal) -> (funds: Vec<Coin>)
    requires
        forall|i: int|
            0 <= i < balance.len() ==> share_of(
                #[trigger] coins_view(balance@)[i].amount,
                part.atomics as nat,
            ) <= u128::MAX,
    ensures
        coins_view(funds@) == shares(coins_view(balance@), part.atomics as nat),
{
    let mut funds: Vec<Coin> = Vec::new();
    let mut i: usize = 0;
    while i < balance.len()
        invariant
            i <= balance.len(),
            funds.len() == i,
            forall|j: int|
                0 <= j < balance.len() ==> share_of(
                    #[trigger] coins_view(balance@)[j].amount,
                    part.atomics as nat,
                ) <= u128::MAX,
            forall|j: int|
                0 <= j < i ==> (#[trigger] funds@[j])@ == shares(
                    coins_view(balance@),
                    part.atomics as nat,
                )[j],
        decreases balance.len() - i,
    {
        assert(coins_view(balance@)[i as int].amount == balance@[i as int].amount);
        let amount = mul_decimal(balance[i].amount, part.atomics);
        funds.push(Coin { denom: balance[i].denom.clone(), amount });
        i += 1;
    }
    assert(coins_view(funds@) =~= shares(coins_view(balance@), part.atomics as nat));
    funds
}

/// Takes a donation. Where the funds reach the minimal donation the counter
/// grows by one; where the account counts down to a forward, the countdown
/// goes on, and the donation that ends it sends the parent its share of
/// `balance` and starts the countdown again. A donation that does not count
/// succeeds and changes nothing. The call fails only where the store lacks
/// a record that it needs, and then leaves the store as it was.
pub fn donate(
    store: &mut Store,
    balance: Vec<Coin>,
    info: MessageInfo,
) -> (result: Result<Response, ContractError>)
    requires
        donate_in_range(old(store)@, coins_view(info.funds@), coins_view(balance@)),
    ensures
        donate_post(*old(store), *final(store), coins_view(balance@), info, result),
{
    let mut state = match store.load_state() {
        Ok(state) => state,
        Err(fault) => {
            return Err(ContractError::Std(fault));
        },
    };
    let mut resp = Response::new();

    if state.minimal_donation.amount == 0 || reaches_minimal(&info.funds, &state.minimal_donation) {
        state.counter += 1;

        if let Some(left) = state.donating_parent {
            let left: u64 = left - 1;
            if left == 0 {
                let parent_donation = match store.load_parent_donation() {
                    Ok(parent_donation) => parent_donation,
                    Err(fault) => {
                        return Err(ContractError::Std(fault));
                    },
                };
                state.donating_parent = Some(parent_donation.donating_parent_period);

                let funds = forward_funds(balance, parent_donation.part);
                let msg = CosmosMsg::Donate {
                    contract_addr: parent_donation.address.clone(),
                    funds,
                };
                resp = resp.add_message(msg).add_attribute(
                    "donated_to_parent",
                    parent_donation.address,
                );
            } else {
                state.donating_parent = Some(left);
            }
        }
        store.state = Some(state.clone());
    }
    resp = resp.add_attribute("action", "poke".to_owned()).add_attribute(
        "sender",
        info.sender,
    ).add_attribute("counter", u64_to_string(state.counter));

    Ok(resp)
}

/// Why the caller `sender` may not withdraw, if anything stands in the way:
/// the store holds no account, or the account's owner is someone else.
pub open spec fn withdraw_fault(store: StoreView, sender: Seq<char>) -> Option<ContractErrorView> {
    match store.state {
        None => Some(ContractErrorView::Std(StdError::NotFound { kind: Record::State })),
        Some(state) => if state.owner != sender {
            Some(ContractErrorView::Unauthorized { owner: state.owner })
        } else {
            None
        },
    }
}

/// What a withdrawal answers: one request to the bank, to send `amount` to
/// `to_address`, and the call's attributes.
pub open spec fn withdraw_response(
    sender: Seq<char>,
    to_address: Seq<char>,
    amount: Seq<CoinView>,
) -> ResponseView {
    ResponseView::empty().add_message(CosmosMsgView::Send { to_address, amount }).add_attribute(
        "action"@,
        "withdraw"@,
    ).add_attribute("sender"@, sender)
}

/// The most that `caps` lets go of the currency `denom`: the amount of the
/// first entry of that currency, and nothing where there is none.
pub open spec fn limit_of(caps: Seq<CoinView>, denom: Seq<char>) -> nat
    decreases caps.len(),
{
    if caps.len() == 0 {
        0
    } else if caps[0].denom == denom {
        caps[0].amount
    } else {
        limit_of(caps.drop_first(), denom)
    }
}

/// The balance with each coin cut down to what `caps` lets go of it.
pub open spec fn capped(balance: Seq<CoinView>, caps: Seq<CoinView>) -> Seq<CoinView> {
    Seq::new(
        balance.len(),
        |i: int|
            CoinView {
                denom: balance[i].denom,
                amount: if balance[i].amount <= limit_of(caps, balance[i].denom) {
                    balance[i].amount
                } else {
                    limit_of(caps, balance[i].denom)
                },
            },
    )
}

/// What leaves the contract: the whole balance where no caps are given or
/// the list of caps is empty, and the capped balance otherwise.
pub open spec fn withdrawn(balance: Seq<CoinView>, funds: Option<Seq<CoinView>>) -> Seq<CoinView> {
    match funds {
        Some(caps) => if caps.len() == 0 {
            balance
        } else {
            capped(balance, caps)
        },
        None => balance,
    }
}

/// What a withdrawal by the caller answers: the whole balance goes to the
/// caller where the caller is the owner, and the call fails otherwise.
pub open spec fn withdraw_post(
    store: Store,
    balance: Seq<CoinView>,
    info: MessageInfo,
    result: Result<Response, ContractError>,
) -> bool {
    match result {
        Ok(resp) => {
            &&& withdraw_fault(store@, info.sender@) is None
            &&& resp@ == withdraw_response(info.sender@, info.sender@, balance)
        },
        Err(fault) => withdraw_fault(store@, info.sender@) == Some(fault@),
    }
}

/// What a withdrawal to `recipient` answers: what `funds` lets go of the
/// balance goes to `recipient` where the caller is the owner, and the call
/// fails otherwise.
pub open spec fn withdraw_to_post(
    store: Store,
    balance: Seq<CoinView>,
    info: MessageInfo,
    recipient: String,
    funds: Option<Vec<Coin>>,
    result: Result<Response, ContractError>,
) -> bool {
    match result {
        Ok(resp) => {
            &&& withdraw_fault(store@, info.sender@) is None
            &&& resp@ == withdraw_response(
                info.sender@,
                recipient@,
                withdrawn(
                    balance,
                    match funds {
                        Some(caps) => Some(coins_view(caps@)),
                        None => None,
                    },
                ),
            )
        },
        Err(fault) => withdraw_fault(store@, info.sender@) == Some(fault@),
    }
}

/// Looks up what `caps` lets go of the currency `denom`.
pub fn limit_for(caps: &Vec<Coin>, denom: &String) -> (limit: u128)
    ensures
        limit == limit_of(coins_view(caps@), denom@),
{
    let ghost all = coins_view(caps@);
    let mut i: usize = 0;
    assert(all.subrange(0, all.len() as int) =~= all);
    while i < caps.len()
        invariant
            i <= caps.len(),
            all == coins_view(caps@),
            limit_of(all, denom@) == limit_of(all.subrange(i as int, all.len() as int), denom@),
        decreases caps.len() - i,
    {
        let ghost rest = all.subrange(i as int, all.len() as int);
        assert(rest[0] == all[i as int]);
        assert(rest.drop_first() =~= all.subrange(i + 1, all.len() as int));
        if caps[i].denom == *denom {
            return caps[i].amount;
        }
        i += 1;
    }
    0
}

/// Cuts each coin of the balance down to what `caps` lets go of it.
pub fn cap_balance(balance: Vec<Coin>, caps: &Vec<Coin>) -> (cut: Vec<Coin>)
    ensures
        coins_view(cut@) == capped(coins_view(balance@), coins_view(caps@)),
{
    let mut cut: Vec<Coin> = Vec::new();
    let mut i: usize = 0;
    while i < balance.len()
        invariant
            i <= balance.len(),
            cut.len() == i,
            forall|j: int|
                0 <= j < i ==> (#[trigger] cut@[j])@ == capped(
                    coins_view(balance@),
                    coins_view(caps@),
                )[j],
        decreases balance.len() - i,
    {
        let limit = limit_for(caps, &balance[i].denom);
        let amount = if balance[i].amount <= limit {
            balance[i].amount
        } else {
            limit
        };
        assert(coins_view(balance@)[i as int] == balance@[i as int]@);
        cut.push(Coin { denom: balance[i].denom.clone(), amount });
        i += 1;
    }
    assert(coins_view(cut@) =~= capped(coins_view(balance@), coins_view(caps@)));
    cut
}

/// Tells whether `sender` may withdraw: the store holds the account, and
/// `sender` is its owner. Anyone else is turned away with the owner's name.
pub fn ensure_owner(store: &Store, sender: &String) -> (result: Result<(), ContractError>)
    ensures
        match result {
            Ok(_) => withdraw_fault(store@, sender@) is None,
            Err(fault) => withdraw_fault(store@, sender@) == Some(fault@),
        },
{
    let state = match store.load_state() {
        Ok(state) => state,
        Err(fault) => {
            return Err(ContractError::Std(fault));
        },
    };
    if state.owner != *sender {
        return Err(ContractError::Unauthorized { owner: state.owner });
    }
    Ok(())
}

/// Sends the whole balance to the caller, who must be the owner. Anyone
/// else is turned away with the owner's name, and no request is made.
pub fn withdraw(
    store: &Store,
    balance: Vec<Coin>,
    info: MessageInfo,
) -> (result: Result<Response, ContractError>)
    ensures
        withdraw_post(*store, coins_view(balance@), info, result),
{
    match ensure_owner(store, &info.sender) {
        Ok(_) => {},
        Err(fault) => {
            return Err(fault);
        },
    }
    let bank_msg = CosmosMsg::Send { to_address: info.sender.clone(), amount: balance };

    let resp = Response::new().add_message(bank_msg).add_attribute(
        "action",
        "withdraw".to_owned(),
    ).add_attribute("sender", info.sender);

    Ok(resp)
}

/// Sends the balance to `recipient` on the owner's call. Where `funds`
/// holds at least one entry, of each currency no more leaves than the
/// entry of that currency allows, and nothing of a currency without one;
/// the coins of the balance stay in their order, those cut to zero too.
/// Anyone but the owner is turned away with the owner's name.
pub fn withdraw_to(
    store: &Store,
    balance: Vec<Coin>,
    info: MessageInfo,
    recipient: String,
    funds: Option<Vec<Coin>>,
) -> (result: Result<Response, ContractError>)
    ensures
        withdraw_to_post(*store, coins_view(balance@), info, recipient, funds, result),
{
    match ensure_owner(store, &info.sender) {
        Ok(_) => {},
        Err(fault) => {
            return Err(fault);
        },
    }
    let amount = match &funds {
        Some(caps) => if caps.len() > 0 {
            cap_balance(balance, caps)
        } else {
            balance
        },
        None => balance,
    };

    let bank_msg = CosmosMsg::Send { to_address: recipient, amount };

    let resp = Response::new().add_message(bank_msg).add_attribute(
        "action",
        "withdraw".to_owned(),
    ).add_attribute("sender", info.sender);

    Ok(resp)
}

} // verus!
