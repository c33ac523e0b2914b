//! Why an operation on the allow-list was refused.

use cosmwasm_std::StdError;
use vstd::prelude::*;

verus! {

/// Why an operation on the allow-list was refused.
#[derive(Debug, PartialEq)]
pub enum ContractError {
    /// The chain refused the request; here, an address that it did not
    /// accept as well-formed. The chain's own error is kept as it came.
    Std(StdError),
    /// The caller is not the owner of the list.
    Unauthorized {},
    /// The address to remove is not on the list.
    NotFound { user: String },
    /// The list exists already: it is created once, and its owner stays.
    AlreadyInitialized {},
}

/// A [`ContractError`] with its text as a sequence of characters.
pub enum Refusal {
    Std(StdError),
    Unauthorized,
    NotFound { user: Seq<char> },
    AlreadyInitialized,
}

impl View for ContractError {
    type V = Refusal;

    open spec fn view(&self) -> Refusal {
        match *self {
            ContractError::Std(err) => Refusal::Std(err),
            ContractError::Unauthorized {} => Refusal::Unauthorized,
            ContractError::NotFound { user } => Refusal::NotFound { user: user@ },
            ContractError::AlreadyInitialized {} => Refusal::AlreadyInitialized,
        }
    }
}

} // verus!
