//! The ways in which a call fails.

use vstd::prelude::*;

verus! {

/// A record of the store, named by its key.
#[derive(Clone, Copy, Debug, PartialEq, Eq, Structural)]
pub enum Record {
    ContractInfo,
    State,
    ParentDonation,
    Counter,
    MinimalDonation,
    Owner,
}

/// A fault of the store.
#[derive(Clone, Copy, Debug, PartialEq, Eq, Structural)]
pub enum StdError {
    /// A record that the call has to read is not in the store.
    NotFound { kind: Record },
}

/// What a [`ContractError`] stands for.
pub enum ContractErrorView {
    Std(StdError),
    Unauthorized { owner: Seq<char> },
    InvalidContract { contract: Seq<char> },
    InvalidContractVersion { version: Seq<char> },
}

/// Why a call failed.
#[derive(Clone, Debug, PartialEq, Eq)]
pub enum ContractError {
    /// The store did not hold what the call needed.
    Std(StdError),
    /// The caller is not the owner; `owner` is.
    Unauthorized { owner: String },
    /// The records were written by another contract, named `contract`.
    InvalidContract { contract: String },
    /// The records are tagged with a version that no upgrade starts from.
    InvalidContractVersion { version: String },
}

impl View for ContractError {
    type V = ContractErrorView;

    open spec fn view(&self) -> ContractErrorView {
        match self {
            ContractError::Std(fault) => ContractErrorView::Std(*fault),
            ContractError::Unauthorized { owner } => ContractErrorView::Unauthorized {
                owner: owner@,
            },
            ContractError::InvalidContract { contract } => ContractErrorView::InvalidContract {
                contract: contract@,
            },
            ContractError::InvalidContractVersion {
                version,
            } => ContractErrorView::InvalidContractVersion { version: version@ },
        }
    }
}

} // verus!
