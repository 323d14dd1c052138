//! What holds of the handlers, whatever the store and the call.

use vstd::prelude::*;
use vstd::arithmetic::div_mod::{
    lemma_fundamental_div_mod,
    lemma_fundamental_div_mod_converse,
    lemma_mod_pos_bound,
};
use crate::coin::{Coin, CoinView, coins_view};
use crate::contract::exec::{
    counts,
    donate_fault,
    donate_in_range,
    donate_post,
    donate_state,
    forwards,
    limit_of,
    reaches,
    withdraw_post,
    withdraw_to_post,
    withdrawn,
};
use crate::contract::{lemma_versions_differ, migrate_post, stored_version};
use crate::error::{ContractError, ContractErrorView};
use crate::math::{lemma_share_of_bounded, share_of};
use crate::msg::MessageInfo;
use crate::response::Response;
use crate::state::{CONTRACT_NAME, CONTRACT_VERSION, Store, StoreView};

verus! {

/// A donation counts exactly where nothing is asked for or one of its coins
/// is of the minimal donation's currency and no smaller. A donation that
/// counts raises the counter by one; any other leaves every record as it
/// was.
pub proof fn donation_counts_once(
    before: Store,
    after: Store,
    balance: Seq<CoinView>,
    info: MessageInfo,
    result: Result<Response, ContractError>,
)
    requires
        donate_post(before, after, balance, info, result),
        result is Ok,
    ensures
        before@.state is Some,
        after@.state is Some,
        counts(before@.state->0.minimal_donation, coins_view(info.funds@)) <==> (
        before@.state->0.minimal_donation.amount == 0 || exists|i: int|
            0 <= i < info.funds@.len() && info.funds@[i].denom@
                == before@.state->0.minimal_donation.denom && info.funds@[i].amount
                >= before@.state->0.minimal_donation.amount),
        counts(before@.state->0.minimal_donation, coins_view(info.funds@))
            ==> after@.state->0.counter == before@.state->0.counter + 1,
        !counts(before@.state->0.minimal_donation, coins_view(info.funds@)) ==> after@
            == before@,
{
    let minimal = before@.state->0.minimal_donation;
    let funds = coins_view(info.funds@);
    if counts(minimal, funds) && minimal.amount != 0 {
        let i = choose|i: int| 0 <= i < funds.len() && reaches(#[trigger] funds[i], minimal);
        assert(info.funds@[i].denom@ == minimal.denom && info.funds@[i].amount >= minimal.amount);
    }
    if exists|i: int|
        0 <= i < info.funds@.len() && info.funds@[i].denom@ == minimal.denom
            && info.funds@[i].amount >= minimal.amount {
        let i = choose|i: int|
            0 <= i < info.funds@.len() && info.funds@[i].denom@ == minimal.denom
                && info.funds@[i].amount >= minimal.amount;
        assert(reaches(funds[i], minimal));
    }
}

/// The store after the donations of `donations`, made one after another,
/// where each finds the records that it needs.
pub open spec fn after_donations(store: StoreView, donations: Seq<Seq<CoinView>>) -> StoreView
    decreases donations.len(),
{
    if donations.len() == 0 {
        store
    } else {
        let earlier = after_donations(store, donations.drop_last());
        StoreView { state: Some(donate_state(earlier, donations.last())), ..earlier }
    }
}

/// The remainder of a number's successor: one more than the number's own,
/// and zero where that would be the divisor.
pub proof fn lemma_mod_successor(n: nat, p: nat)
    requires
        p >= 1,
    ensures
        (n + 1) % p == if n % p == p - 1 {
            0
        } else {
            n % p + 1
        },
{
    let q = (n as int) / (p as int);
    let r = (n as int) % (p as int);
    lemma_fundamental_div_mod(n as int, p as int);
    lemma_mod_pos_bound(n as int, p as int);
    if r == p - 1 {
        assert(n + 1 == (q + 1) * p + 0) by (nonlinear_arith)
            requires
                n == p * q + r,
                r == p - 1,
        ;
        lemma_fundamental_div_mod_converse((n + 1) as int, p as int, q + 1, 0);
    } else {
        assert(n + 1 == q * p + (r + 1)) by (nonlinear_arith)
            requires
                n == p * q + r,
        ;
        lemma_fundamental_div_mod_converse((n + 1) as int, p as int, q, r + 1);
    }
}

/// The countdown runs in a ring. Take an account whose countdown stands at
/// the parent's whole period `P`, and `N` donations that all count. Then
/// the counter has grown by `N`, the countdown stands at `P - N mod P`
/// (which is `P` where `P` divides `N`), the last of the donations set off
/// a forward exactly where `P` divides `N`, and no donation lacked a
/// record. The minimal donation, the owner and the link stay as they were.
pub proof fn cascade_ring(store: StoreView, donations: Seq<Seq<CoinView>>)
    requires
        store.state is Some,
        store.parent_donation is Some,
        store.parent_donation->0.donating_parent_period >= 1,
        store.state->0.donating_parent == Some(store.parent_donation->0.donating_parent_period),
        forall|i: int|
            0 <= i < donations.len() ==> counts(
                store.state->0.minimal_donation,
                #[trigger] donations[i],
            ),
    ensures
        ({
            let period = store.parent_donation->0.donating_parent_period;
            let n = donations.len();
            let after = after_donations(store, donations);
            &&& after.state is Some
            &&& after.state->0.counter == store.state->0.counter + n
            &&& after.state->0.donating_parent == Some((period - n % period) as nat)
            &&& 1 <= period - n % period <= period
            &&& after.state->0.minimal_donation == store.state->0.minimal_donation
            &&& after.state->0.owner == store.state->0.owner
            &&& after.parent_donation == store.parent_donation
            &&& n >= 1 ==> {
                let earlier = after_donations(store, donations.drop_last());
                &&& donate_fault(earlier, donations.last()) is None
                &&& forwards(earlier, donations.last()) <==> n % period == 0
            }
        }),
    decreases donations.len(),
{
    let period = store.parent_donation->0.donating_parent_period;
    let n = donations.len();
    lemma_mod_pos_bound(n as int, period as int);
    if n == 0 {
        assert(0nat % period == 0) by {
            lemma_fundamental_div_mod_converse(0, period as int, 0, 0);
        }
    } else {
        let before = donations.drop_last();
        cascade_ring(store, before);
        lemma_mod_successor(before.len(), period);
        lemma_mod_pos_bound(before.len() as int, period as int);
        assert(before.len() + 1 == n);
        let earlier = after_donations(store, before);
        assert(counts(earlier.state->0.minimal_donation, donations.last())) by {
            assert(donations.last() == donations[n - 1]);
        }
    }
}

/// A caller who is not the owner cannot withdraw: the call fails and names
/// the owner, so no request to move funds is made.
pub proof fn withdraw_needs_owner(
    store: Store,
    balance: Seq<CoinView>,
    info: MessageInfo,
    result: Result<Response, ContractError>,
)
    requires
        withdraw_post(store, balance, info, result),
        store@.state is Some,
        store@.state->0.owner != info.sender@,
    ensures
        result is Err,
        result->Err_0@ == (ContractErrorView::Unauthorized { owner: store@.state->0.owner }),
{
}

/// A caller who is not the owner cannot withdraw to anyone either, whatever
/// the recipient and the caps.
pub proof fn withdraw_to_needs_owner(
    store: Store,
    balance: Seq<CoinView>,
    info: MessageInfo,
    recipient: String,
    funds: Option<Vec<Coin>>,
    result: Result<Response, ContractError>,
)
    requires
        withdraw_to_post(store, balance, info, recipient, funds, result),
        store@.state is Some,
        store@.state->0.owner != info.sender@,
    ensures
        result is Err,
        result->Err_0@ == (ContractErrorView::Unauthorized { owner: store@.state->0.owner }),
{
}

/// Caps let nothing go of a currency that they do not name.
pub proof fn limit_of_absent(caps: Seq<CoinView>, denom: Seq<char>)
    requires
        forall|j: int| 0 <= j < caps.len() ==> (#[trigger] caps[j]).denom != denom,
    ensures
        limit_of(caps, denom) == 0,
    decreases caps.len(),
{
    if caps.len() > 0 {
        assert(caps[0].denom != denom);
        assert forall|j: int| 0 <= j < caps.drop_first().len() implies (
        #[trigger] caps.drop_first()[j]).denom != denom by {
            assert(caps.drop_first()[j] == caps[j + 1]);
        }
        limit_of_absent(caps.drop_first(), denom);
    }
}

/// Caps let go of a currency what their first entry of that currency says.
pub proof fn limit_of_present(caps: Seq<CoinView>, denom: Seq<char>, at: int)
    requires
        0 <= at < caps.len(),
        caps[at].denom == denom,
        forall|j: int| 0 <= j < at ==> (#[trigger] caps[j]).denom != denom,
    ensures
        limit_of(caps, denom) == caps[at].amount,
    decreases caps.len(),
{
    if at > 0 {
        assert(caps[0].denom != denom);
        assert forall|j: int| 0 <= j < at - 1 implies (#[trigger] caps.drop_first()[j]).denom
            != denom by {
            assert(caps.drop_first()[j] == caps[j + 1]);
        }
        assert(caps.drop_first()[at - 1] == caps[at]);
        limit_of_present(caps.drop_first(), denom, at - 1);
    }
}

/// Without caps, or with an empty list of them, a withdrawal takes the
/// whole balance.
pub proof fn withdrawal_is_whole(balance: Seq<CoinView>, funds: Option<Seq<CoinView>>)
    requires
        funds is None || funds->0.len() == 0,
    ensures
        withdrawn(balance, funds) == balance,
{
}

/// With caps, a withdrawal takes of each coin of the balance the smaller
/// of the coin's amount and the cap of the coin's currency, and nothing
/// where the caps do not name the currency. It takes as many coins as the
/// balance holds, each in its currency, and none that the balance lacks.
pub proof fn withdrawal_is_capped(balance: Seq<CoinView>, caps: Seq<CoinView>, i: int)
    requires
        caps.len() > 0,
        0 <= i < balance.len(),
    ensures
        withdrawn(balance, Some(caps)).len() == balance.len(),
        withdrawn(balance, Some(caps))[i].denom == balance[i].denom,
        withdrawn(balance, Some(caps))[i].amount <= balance[i].amount,
        (forall|j: int| 0 <= j < caps.len() ==> (#[trigger] caps[j]).denom != balance[i].denom)
            ==> withdrawn(balance, Some(caps))[i].amount == 0,
        forall|at: int|
            (0 <= at < caps.len() && (#[trigger] caps[at]).denom == balance[i].denom && (forall|
                j: int,
            |
                0 <= j < at ==> (#[trigger] caps[j]).denom != balance[i].denom)) ==> withdrawn(
                balance,
                Some(caps),
            )[i].amount == if balance[i].amount <= caps[at].amount {
                balance[i].amount
            } else {
                caps[at].amount
            },
{
    if forall|j: int| 0 <= j < caps.len() ==> (#[trigger] caps[j]).denom != balance[i].denom {
        limit_of_absent(caps, balance[i].denom);
    }
    assert forall|at: int|
        (0 <= at < caps.len() && (#[trigger] caps[at]).denom == balance[i].denom && (forall|
            j: int,
        |
            0 <= j < at ==> (#[trigger] caps[j]).denom != balance[i].denom)) implies withdrawn(
        balance,
        Some(caps),
    )[i].amount == if balance[i].amount <= caps[at].amount {
        balance[i].amount
    } else {
        caps[at].amount
    } by {
        limit_of_present(caps, balance[i].denom, at);
    }
}

/// An upgrade that succeeded can be run again: the second run succeeds too
/// and leaves the store exactly as the first run left it.
pub proof fn migrate_twice(
    before: Store,
    between: Store,
    after: Store,
    first: Result<Response, ContractError>,
    second: Result<Response, ContractError>,
)
    requires
        migrate_post(before, between, first),
        migrate_post(between, after, second),
        first is Ok,
    ensures
        second is Ok,
        after == between,
        stored_version(between@).contract == CONTRACT_NAME@,
        stored_version(between@).version == CONTRACT_VERSION@,
{
    lemma_versions_differ();
}

/// A store whose version is none that an upgrade knows is refused with
/// that version, and stays exactly as it was.
pub proof fn migrate_refuses_unknown_version(
    before: Store,
    after: Store,
    result: Result<Response, ContractError>,
)
    requires
        migrate_post(before, after, result),
        stored_version(before@).contract == CONTRACT_NAME@,
        stored_version(before@).version != "0.1.0"@,
        stored_version(before@).version != "0.2.0"@,
        stored_version(before@).version != CONTRACT_VERSION@,
    ensures
        result is Err,
        result->Err_0@ == (ContractErrorView::InvalidContractVersion {
            version: stored_version(before@).version,
        }),
        after == before,
{
}

/// A store of another contract is refused with that contract's name,
/// whatever its version, and stays exactly as it was.
pub proof fn migrate_refuses_other_contract(
    before: Store,
    after: Store,
    result: Result<Response, ContractError>,
)
    requires
        migrate_post(before, after, result),
        stored_version(before@).contract != CONTRACT_NAME@,
    ensures
        result is Err,
        result->Err_0@ == (ContractErrorView::InvalidContract {
            contract: stored_version(before@).contract,
        }),
        after == before,
{
}

/// An upgrade of a store that holds no link to a parent, where it
/// succeeds, gives a store that this version keeps.
pub proof fn migrate_gives_current_store(
    before: Store,
    after: Store,
    result: Result<Response, ContractError>,
)
    requires
        migrate_post(before, after, result),
        result is Ok,
        stored_version(before@).version != CONTRACT_VERSION@,
        before@.parent_donation is None,
    ensures
        after@.wf(),
        after@.state->0.donating_parent is None,
{
    lemma_versions_differ();
}

/// A store that this version keeps takes every donation that leaves room
/// in the counter: the numbers stay in range, whatever the funds and the
/// balance.
pub proof fn kept_store_takes_donations(
    store: StoreView,
    funds: Seq<CoinView>,
    balance: Seq<CoinView>,
)
    requires
        store.wf(),
        store.state->0.counter < u64::MAX,
        forall|i: int| 0 <= i < balance.len() ==> (#[trigger] balance[i]).amount <= u128::MAX,
    ensures
        donate_in_range(store, funds, balance),
{
    if store.parent_donation is Some {
        let part = store.parent_donation->0.part;
        assert forall|i: int| 0 <= i < balance.len() implies share_of(
            #[trigger] balance[i].amount,
            part,
        ) <= u128::MAX by {
            lemma_share_of_bounded(balance[i].amount, part);
        }
    }
}

/// A donation to a store that this version keeps succeeds and gives such a
/// store again: the countdown, where there is one, stays between one and
/// the period, and the owner, the minimal donation, the link to the parent
/// and the tag stay as they were.
pub proof fn donation_keeps_store(
    before: Store,
    after: Store,
    balance: Seq<CoinView>,
    info: MessageInfo,
    result: Result<Response, ContractError>,
)
    requires
        before@.wf(),
        donate_post(before, after, balance, info, result),
    ensures
        result is Ok,
        after@.wf(),
        after@.state->0.owner == before@.state->0.owner,
        after@.state->0.minimal_donation == before@.state->0.minimal_donation,
        after@.parent_donation == before@.parent_donation,
        after@.contract_info == before@.contract_info,
        after@.state->0.counter >= before@.state->0.counter,
{
}

} // verus!
