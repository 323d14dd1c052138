//! The records that the contract keeps, and the store that holds them.

use vstd::prelude::*;
use crate::coin::{Coin, CoinView};
use crate::error::{Record, StdError};
use crate::math::Decimal;

verus! {

/// The name under which the contract registers its records.
pub const CONTRACT_NAME: &'static str = "counting_contract";

/// The version of the layout that this code reads and writes.
pub const CONTRACT_VERSION: &'static str = "0.3.0";

/// What a [`State`] stands for.
pub struct StateView {
    pub counter: nat,
    pub minimal_donation: CoinView,
    pub owner: Seq<char>,
    pub donating_parent: Option<nat>,
}

/// The contract's account: how many donations counted, what a donation must
/// bring to count, who may withdraw, and how many counted donations are left
/// until the parent gets its share.
#[derive(Debug, PartialEq, Eq)]
pub struct State {
    pub counter: u64,
    pub minimal_donation: Coin,
    pub owner: String,
    pub donating_parent: Option<u64>,
}

impl View for State {
    type V = StateView;

    open spec fn view(&self) -> StateView {
        StateView {
            counter: self.counter as nat,
            minimal_donation: self.minimal_donation@,
            owner: self.owner@,
            donating_parent: match self.donating_parent {
                Some(left) => Some(left as nat),
                None => None,
            },
        }
    }
}

impl Clone for State {
    fn clone(&self) -> (copy: Self)
        ensures
            copy == *self,
    {
        State {
            counter: self.counter,
            minimal_donation: self.minimal_donation.clone(),
            owner: self.owner.clone(),
            donating_parent: self.donating_parent,
        }
    }
}

/// What a [`ParentDonation`] stands for.
pub struct ParentDonationView {
    pub address: Seq<char>,
    pub donating_parent_period: nat,
    pub part: nat,
}

/// The link to the parent contract: its address, the number of counted
/// donations between two forwards, and the share of the balance that each
/// forward carries.
#[derive(Debug, PartialEq, Eq)]
pub struct ParentDonation {
    pub address: String,
    pub donating_parent_period: u64,
    pub part: Decimal,
}

impl View for ParentDonation {
    type V = ParentDonationView;

    open spec fn view(&self) -> ParentDonationView {
        ParentDonationView {
            address: self.address@,
            donating_parent_period: self.donating_parent_period as nat,
            part: self.part.atomics as nat,
        }
    }
}

impl Clone for ParentDonation {
    fn clone(&self) -> (copy: Self)
        ensures
            copy == *self,
    {
        ParentDonation {
            address: self.address.clone(),
            donating_parent_period: self.donating_parent_period,
            part: self.part,
        }
    }
}

/// What a [`ContractVersion`] stands for.
pub struct ContractVersionView {
    pub contract: Seq<char>,
    pub version: Seq<char>,
}

/// The tag that says which contract wrote the records, and in which layout.
#[derive(Debug, PartialEq, Eq)]
pub struct ContractVersion {
    pub contract: String,
    pub version: String,
}

impl View for ContractVersion {
    type V = ContractVersionView;

    open spec fn view(&self) -> ContractVersionView {
        ContractVersionView { contract: self.contract@, version: self.version@ }
    }
}

impl Clone for ContractVersion {
    fn clone(&self) -> (copy: Self)
        ensures
            copy == *self,
    {
        ContractVersion { contract: self.contract.clone(), version: self.version.clone() }
    }
}

/// What a [`Store`] stands for: each record, or `None` where none is kept.
pub struct StoreView {
    pub contract_info: Option<ContractVersionView>,
    pub state: Option<StateView>,
    pub parent_donation: Option<ParentDonationView>,
    pub counter: Option<nat>,
    pub minimal_donation: Option<CoinView>,
    pub owner: Option<Seq<char>>,
}

/// The records of one contract instance, each under its own key. The last
/// three are the separate records of the first layout, which an upgrade
/// reads and leaves in place.
#[derive(Debug, PartialEq, Eq)]
pub struct Store {
    pub contract_info: Option<ContractVersion>,
    pub state: Option<State>,
    pub parent_donation: Option<ParentDonation>,
    pub counter: Option<u64>,
    pub minimal_donation: Option<Coin>,
    pub owner: Option<String>,
}

impl View for Store {
    type V = StoreView;

    open spec fn view(&self) -> StoreView {
        StoreView {
            contract_info: match self.contract_info {
                Some(info) => Some(info@),
                None => None,
            },
            state: match self.state {
                Some(state) => Some(state@),
                None => None,
            },
            parent_donation: match self.parent_donation {
                Some(parent) => Some(parent@),
                None => None,
            },
            counter: match self.counter {
                Some(counter) => Some(counter as nat),
                None => None,
            },
            minimal_donation: match self.minimal_donation {
                Some(minimal) => Some(minimal@),
                None => None,
            },
            owner: match self.owner {
                Some(owner) => Some(owner@),
                None => None,
            },
        }
    }
}

impl Clone for Store {
    fn clone(&self) -> (copy: Self)
        ensures
            copy == *self,
    {
        Store {
            contract_info: match &self.contract_info {
                Some(info) => Some(info.clone()),
                None => None,
            },
            state: match &self.state {
                Some(state) => Some(state.clone()),
                None => None,
            },
            parent_donation: match &self.parent_donation {
                Some(parent) => Some(parent.clone()),
                None => None,
            },
            counter: self.counter,
            minimal_donation: match &self.minimal_donation {
                Some(minimal) => Some(minimal.clone()),
                None => None,
            },
            owner: match &self.owner {
                Some(owner) => Some(owner.clone()),
                None => None,
            },
        }
    }
}

impl StoreView {
    /// The store of an instance that holds no record yet.
    pub open spec fn empty() -> StoreView {
        StoreView {
            contract_info: None,
            state: None,
            parent_donation: None,
            counter: None,
            minimal_donation: None,
            owner: None,
        }
    }

    /// The store is one that this version of the contract keeps: it is tagged
    /// with the current name and version, holds the account, holds a parent
    /// link exactly when the account counts down to a forward, the countdown
    /// lies between one and the link's period, and the link's share is at
    /// most one whole.
    pub open spec fn wf(self) -> bool {
        &&& self.contract_info == Some(
            ContractVersionView { contract: CONTRACT_NAME@, version: CONTRACT_VERSION@ },
        )
        &&& self.state is Some
        &&& self.parent_donation is Some <==> self.state->0.donating_parent is Some
        &&& self.parent_donation matches Some(parent) ==> {
            &&& 1 <= self.state->0.donating_parent->0 <= parent.donating_parent_period
            &&& parent.part <= crate::math::DECIMAL_FRACTIONAL
        }
    }
}

impl Store {
    /// A store that holds no record.
    pub fn new() -> (store: Store)
        ensures
            store@ == StoreView::empty(),
    {
        Store {
            contract_info: None,
            state: None,
            parent_donation: None,
            counter: None,
            minimal_donation: None,
            owner: None,
        }
    }

    /// Reads the account.
    pub fn load_state(&self) -> (loaded: Result<State, StdError>)
        ensures
            match self.state {
                Some(state) => loaded == Ok::<State, StdError>(state),
                None => loaded == Err::<State, StdError>(StdError::NotFound { kind: Record::State }),
            },
    {
        match &self.state {
            Some(state) => Ok(state.clone()),
            None => Err(StdError::NotFound { kind: Record::State }),
        }
    }

    /// Reads the link to the parent.
    pub fn load_parent_donation(&self) -> (loaded: Result<ParentDonation, StdError>)
        ensures
            match self.parent_donation {
                Some(parent) => loaded == Ok::<ParentDonation, StdError>(parent),
                None => loaded == Err::<ParentDonation, StdError>(
                    StdError::NotFound { kind: Record::ParentDonation },
                ),
            },
    {
        match &self.parent_donation {
            Some(parent) => Ok(parent.clone()),
            None => Err(StdError::NotFound { kind: Record::ParentDonation }),
        }
    }

    /// Reads the counter as the first layout kept it.
    pub fn load_counter(&self) -> (loaded: Result<u64, StdError>)
        ensures
            match self.counter {
                Some(counter) => loaded == Ok::<u64, StdError>(counter),
                None => loaded == Err::<u64, StdError>(StdError::NotFound { kind: Record::Counter }),
            },
    {
        match self.counter {
            Some(counter) => Ok(counter),
            None => Err(StdError::NotFound { kind: Record::Counter }),
        }
    }

    /// Reads the minimal donation as the first layout kept it.
    pub fn load_minimal_donation(&self) -> (loaded: Result<Coin, StdError>)
        ensures
            match self.minimal_donation {
                Some(minimal) => loaded == Ok::<Coin, StdError>(minimal),
                None => loaded == Err::<Coin, StdError>(
                    StdError::NotFound { kind: Record::MinimalDonation },
                ),
            },
    {
        match &self.minimal_donation {
            Some(minimal) => Ok(minimal.clone()),
            None => Err(StdError::NotFound { kind: Record::MinimalDonation }),
        }
    }

    /// Reads the owner as the first layout kept it.
    pub fn load_owner(&self) -> (loaded: Result<String, StdError>)
        ensures
            match self.owner {
                Some(owner) => loaded == Ok::<String, StdError>(owner),
                None => loaded == Err::<String, StdError>(StdError::NotFound { kind: Record::Owner }),
            },
    {
        match &self.owner {
            Some(owner) => Ok(owner.clone()),
            None => Err(StdError::NotFound { kind: Record::Owner }),
        }
    }

    /// Reads the tag that names the contract and the layout.
    pub fn get_contract_version(&self) -> (loaded: Result<ContractVersion, StdError>)
        ensures
            match self.contract_info {
                Some(info) => loaded == Ok::<ContractVersion, StdError>(info),
                None => loaded == Err::<ContractVersion, StdError>(
                    StdError::NotFound { kind: Record::ContractInfo },
                ),
            },
    {
        match &self.contract_info {
            Some(info) => Ok(info.clone()),
            None => Err(StdError::NotFound { kind: Record::ContractInfo }),
        }
    }

    /// Tags the store with a contract's name and a layout's version.
    pub fn set_contract_version(&mut self, contract: &str, version: &str)
        ensures
            final(self)@ == (StoreView {
                contract_info: Some(ContractVersionView { contract: contract@, version: version@ }),
                ..old(self)@
            }),
    {
        self.contract_info = Some(
            ContractVersion { contract: contract.to_owned(), version: version.to_owned() },
        );
    }
}

} // verus!
