//! The questions that the contract answers without changing anything.

use vstd::prelude::*;
use crate::error::{Record, StdError};
use crate::msg::ValueResp;
use crate::state::Store;

verus! {

/// The answer to the question for the counter: its value where the store
/// holds the account, and the missing record's name where it does not.
pub open spec fn value_of(store: Store) -> Result<ValueResp, StdError> {
    match store.state {
        Some(state) => Ok(ValueResp { value: state.counter }),
        None => Err(StdError::NotFound { kind: Record::State }),
    }
}

/// The counter's value, as the account holds it.
pub fn value(store: &Store) -> (result: Result<ValueResp, StdError>)
    ensures
        result == value_of(*store),
{
    match store.load_state() {
        Ok(state) => Ok(ValueResp { value: state.counter }),
        Err(fault) => Err(fault),
    }
}

/// The successor of `value`. No store is read: the answer does not tell
/// what the counter would be after a donation.
pub fn increment(value: u64) -> (result: Result<ValueResp, StdError>)
    requires
        value < u64::MAX,
    ensures
        result == Ok::<ValueResp, StdError>(ValueResp { value: (value + 1) as u64 }),
{
    Ok(ValueResp { value: value + 1 })
}

} // verus!
