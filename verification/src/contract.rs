//! The handlers: what each call reads, writes and answers.

use vstd::prelude::*;
use crate::error::{ContractError, ContractErrorView, Record, StdError};
use crate::math::DECIMAL_FRACTIONAL;
use crate::msg::{InstantiateMsg, MessageInfo, Parent};
use crate::response::{Response, ResponseView};
use crate::state::{
    CONTRACT_NAME,
    CONTRACT_VERSION,
    ContractVersion,
    ContractVersionView,
    ParentDonation,
    ParentDonationView,
    State,
    StateView,
    Store,
    StoreView,
};

pub mod exec;
pub mod query;

verus! {

/// The store after an instance was set up from `msg` by `sender`: tagged
/// with the current name and version, with a fresh account owned by
/// `sender`, and with the link to the parent where `msg` names one.
pub open spec fn instantiate_store(
    store: StoreView,
    msg: InstantiateMsg,
    sender: Seq<char>,
) -> StoreView {
    StoreView {
        contract_info: Some(
            ContractVersionView { contract: CONTRACT_NAME@, version: CONTRACT_VERSION@ },
        ),
        state: Some(
            StateView {
                counter: match msg.counter {
                    Some(counter) => counter as nat,
                    None => 0,
                },
                minimal_donation: msg.minimal_donation@,
                owner: sender,
                donating_parent: match msg.parent {
                    Some(parent) => Some(parent.donating_period as nat),
                    None => None,
                },
            },
        ),
        parent_donation: match msg.parent {
            Some(parent) => Some(
                ParentDonationView {
                    address: parent.addr@,
                    donating_parent_period: parent.donating_period as nat,
                    part: parent.part.atomics as nat,
                },
            ),
            None => store.parent_donation,
        },
        ..store
    }
}

/// Tells whether a link to a parent can be served: its period is at least
/// one donation and its share at most one whole.
pub fn parent_is_well_formed(parent: &Parent) -> (ok: bool)
    ensures
        ok == parent.wf(),
{
    parent.donating_period >= 1 && parent.part.atomics <= DECIMAL_FRACTIONAL
}

/// Sets up an instance: the caller becomes the owner, the counter starts at
/// the value given or at zero, and the countdown to the first forward at
/// the parent's whole period. A parent, where one is named, has a period
/// of at least one donation and a share of at most one whole, so that the
/// countdown never stands at zero and no forward exceeds the balance.
pub fn instantiate(
    store: &mut Store,
    msg: InstantiateMsg,
    info: MessageInfo,
) -> (result: Result<Response, StdError>)
    requires
        msg.parent matches Some(parent) ==> parent.wf(),
    ensures
        result matches Ok(resp) && resp@ == ResponseView::empty(),
        final(store)@ == instantiate_store(old(store)@, msg, info.sender@),
        old(store)@.parent_donation is None ==> final(store)@.wf(),
        final(store)@.state matches Some(state) && state.donating_parent != Some(0nat),
        msg.parent is Some ==> (final(store)@.parent_donation matches Some(link) && link.part
            <= DECIMAL_FRACTIONAL),
{
    store.set_contract_version(CONTRACT_NAME, CONTRACT_VERSION);

    let counter = match msg.counter {
        Some(counter) => counter,
        None => 0,
    };
    let minimal_donation = msg.minimal_donation;
    let owner = info.sender;
    let donating_parent = match &msg.parent {
        Some(parent) => Some(parent.donating_period),
        None => None,
    };
    store.state = Some(State { counter, minimal_donation, owner, donating_parent });

    let parent = msg.parent;
    if let Some(parent) = parent {
        store.parent_donation = Some(
            ParentDonation {
                address: parent.addr,
                donating_parent_period: parent.donating_period,
                part: parent.part,
            },
        );
    }
    Ok(Response::new())
}

/// The tag that an upgrade goes by: the stored one, and that of the first
/// layout, which stored none, where there is none.
pub open spec fn stored_version(store: StoreView) -> ContractVersionView {
    match store.contract_info {
        Some(info) => info,
        None => ContractVersionView { contract: CONTRACT_NAME@, version: "0.1.0"@ },
    }
}

/// The record of the first layout that the store lacks, if any, in the
/// order in which the upgrade reads them.
pub open spec fn migrate_0_1_0_fault(store: StoreView) -> Option<StdError> {
    if store.counter is None {
        Some(StdError::NotFound { kind: Record::Counter })
    } else if store.minimal_donation is None {
        Some(StdError::NotFound { kind: Record::MinimalDonation })
    } else if store.owner is None {
        Some(StdError::NotFound { kind: Record::Owner })
    } else {
        None
    }
}

/// The store after the upgrade from the first layout: the account is put
/// together from the three separate records, without a countdown.
pub open spec fn migrate_0_1_0_store(store: StoreView) -> StoreView {
    StoreView {
        state: Some(
            StateView {
                counter: store.counter->0,
                minimal_donation: store.minimal_donation->0,
                owner: store.owner->0,
                donating_parent: None,
            },
        ),
        ..store
    }
}

/// The store after the upgrade from the second layout: the account as it
/// was kept, without a countdown.
pub open spec fn migrate_0_2_0_store(store: StoreView) -> StoreView {
    StoreView { state: Some(StateView { donating_parent: None, ..store.state->0 }), ..store }
}

/// Why the store cannot be upgraded, if anything stands in the way: it
/// belongs to another contract, its version is none that an upgrade starts
/// from, or it lacks a record of the layout that its version names.
pub open spec fn migrate_fault(store: StoreView) -> Option<ContractErrorView> {
    let tag = stored_version(store);
    if tag.contract != CONTRACT_NAME@ {
        Some(ContractErrorView::InvalidContract { contract: tag.contract })
    } else if tag.version == "0.1.0"@ {
        match migrate_0_1_0_fault(store) {
            Some(fault) => Some(ContractErrorView::Std(fault)),
            None => None,
        }
    } else if tag.version == "0.2.0"@ {
        if store.state is None {
            Some(ContractErrorView::Std(StdError::NotFound { kind: Record::State }))
        } else {
            None
        }
    } else if tag.version == CONTRACT_VERSION@ {
        None
    } else {
        Some(ContractErrorView::InvalidContractVersion { version: tag.version })
    }
}

/// The store after an upgrade that succeeded: rewritten from the layout
/// that its version names and tagged with the current version, or, where
/// it was at the current version already, as it was.
pub open spec fn migrate_store(store: StoreView) -> StoreView {
    let tag = stored_version(store);
    let current = Some(ContractVersionView { contract: CONTRACT_NAME@, version: CONTRACT_VERSION@ });
    if tag.version == "0.1.0"@ {
        StoreView { contract_info: current, ..migrate_0_1_0_store(store) }
    } else if tag.version == "0.2.0"@ {
        StoreView { contract_info: current, ..migrate_0_2_0_store(store) }
    } else {
        store
    }
}

/// What an upgrade leaves behind: on success the upgraded store, which is
/// the very store that was there where it was at the current version
/// already; on failure the reason and the store untouched.
pub open spec fn migrate_post(
    before: Store,
    after: Store,
    result: Result<Response, ContractError>,
) -> bool {
    match result {
        Ok(resp) => {
            &&& migrate_fault(before@) is None
            &&& resp@ == ResponseView::empty()
            &&& after@ == migrate_store(before@)
            &&& stored_version(before@).version == CONTRACT_VERSION@ ==> after == before
        },
        Err(fault) => {
            &&& migrate_fault(before@) == Some(fault@)
            &&& after == before
        },
    }
}

/// The versions that an upgrade tells apart differ from one another.
pub proof fn lemma_versions_differ()
    ensures
        "0.1.0"@ != "0.2.0"@,
        "0.1.0"@ != CONTRACT_VERSION@,
        "0.2.0"@ != CONTRACT_VERSION@,
{
    reveal_strlit("0.1.0");
    reveal_strlit("0.2.0");
    reveal_strlit("0.3.0");
    assert("0.1.0"@[2] == '1');
    assert("0.2.0"@[2] == '2');
    assert("0.3.0"@[2] == '3');
}

/// Tells whether a text is the given literal.
fn same_text(text: &String, literal: &str) -> (same: bool)
    ensures
        same == (text@ == literal@),
{
    *text == literal.to_owned()
}

/// Brings the store to the current layout. The stored tag decides: a store
/// of another contract is refused, one at the current version is left as
/// it is, one of an earlier layout is rewritten and then tagged with the
/// current version, and any other version is refused. A call that fails
/// leaves the store as it was.
pub fn migrate(store: &mut Store) -> (result: Result<Response, ContractError>)
    ensures
        migrate_post(*old(store), *final(store), result),
{
    let contract_version = match store.get_contract_version() {
        Ok(contract_version) => contract_version,
        Err(_) => ContractVersion {
            contract: CONTRACT_NAME.to_owned(),
            version: "0.1.0".to_owned(),
        },
    };

    if !same_text(&contract_version.contract, CONTRACT_NAME) {
        return Err(ContractError::InvalidContract { contract: contract_version.contract });
    }
    let resp = if same_text(&contract_version.version, "0.1.0") {
        match migrate_0_1_0(store) {
            Ok(resp) => resp,
            Err(fault) => {
                return Err(fault);
            },
        }
    } else if same_text(&contract_version.version, "0.2.0") {
        match migrate_0_2_0(store) {
            Ok(resp) => resp,
            Err(fault) => {
                return Err(ContractError::Std(fault));
            },
        }
    } else if same_text(&contract_version.version, CONTRACT_VERSION) {
        return Ok(Response::new());
    } else {
        return Err(ContractError::InvalidContractVersion { version: contract_version.version });
    };

    store.set_contract_version(CONTRACT_NAME, CONTRACT_VERSION);
    proof {
        lemma_versions_differ();
    }
    Ok(resp)
}

/// Rewrites a store of the first layout: reads the counter, the minimal
/// donation and the owner, each from its own record, and writes them as
/// one account without a countdown. The three records stay in place.
pub fn migrate_0_1_0(store: &mut Store) -> (result: Result<Response, ContractError>)
    ensures
        match result {
            Ok(resp) => {
                &&& migrate_0_1_0_fault(old(store)@) is None
                &&& resp@ == ResponseView::empty()
                &&& final(store)@ == migrate_0_1_0_store(old(store)@)
            },
            Err(fault) => {
                &&& migrate_0_1_0_fault(old(store)@) is Some
                &&& fault@ == ContractErrorView::Std(migrate_0_1_0_fault(old(store)@)->0)
                &&& *final(store) == *old(store)
            },
        },
{
    let counter = match store.load_counter() {
        Ok(counter) => counter,
        Err(fault) => {
            return Err(ContractError::Std(fault));
        },
    };
    let minimal_donation = match store.load_minimal_donation() {
        Ok(minimal_donation) => minimal_donation,
        Err(fault) => {
            return Err(ContractError::Std(fault));
        },
    };
    let owner = match store.load_owner() {
        Ok(owner) => owner,
        Err(fault) => {
            return Err(ContractError::Std(fault));
        },
    };

    store.state = Some(State { counter, minimal_donation, owner, donating_parent: None });

    Ok(Response::new())
}

/// Rewrites a store of the second layout: reads the account, which that
/// layout kept without a countdown, and writes it with none.
pub fn migrate_0_2_0(store: &mut Store) -> (result: Result<Response, StdError>)
    ensures
        match result {
            Ok(resp) => {
                &&& old(store)@.state is Some
                &&& resp@ == ResponseView::empty()
                &&& final(store)@ == migrate_0_2_0_store(old(store)@)
            },
            Err(fault) => {
                &&& old(store)@.state is None
                &&& fault == (StdError::NotFound { kind: Record::State })
                &&& *final(store) == *old(store)
            },
        },
{
    let old_state = match store.load_state() {
        Ok(old_state) => old_state,
        Err(fault) => {
            return Err(fault);
        },
    };
    let State { counter, minimal_donation, owner, donating_parent: _ } = old_state;

    store.state = Some(State { counter, minimal_donation, owner, donating_parent: None });

    Ok(Response::new())
}

} // verus!
