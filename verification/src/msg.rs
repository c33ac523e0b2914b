//! The messages the allow-list understands and the answers it gives.

use vstd::prelude::*;

verus! {

/// Creates the list. It carries nothing: the caller becomes the owner.
#[derive(Clone, Debug, PartialEq)]
pub struct InstantiateMsg {}

/// A request to change the list.
#[derive(Clone, Debug, PartialEq)]
pub enum ExecuteMsg {
    AddUser { user: String },
    RemoveUser { user: String },
    UpdateUsers { add: Vec<String>, remove: Vec<String> },
}

/// A question about the list.
#[derive(Clone, Debug, PartialEq)]
pub enum QueryMsg {
    /// Who is on the list?
    Users {},
    /// Is `user` on the list?
    User { user: String },
}

/// The members of the list, in the order they were added.
#[derive(Clone, Debug, PartialEq)]
pub struct UsersResponse {
    pub users: Vec<String>,
}

/// Whether the address asked about is on the list.
#[derive(Clone, Debug, PartialEq)]
pub struct ExistsResponse {
    pub exists: bool,
}

/// The answer to a [`QueryMsg`]: one case for each question.
#[derive(Clone, Debug, PartialEq)]
pub enum QueryResponse {
    Users(UsersResponse),
    User(ExistsResponse),
}

} // verus!
