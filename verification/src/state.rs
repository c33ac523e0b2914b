//! The allow-list: its owner and its members.

use crate::address::Addr;
use vstd::prelude::*;

verus! {

/// The allow-list. `owner` is set when the list is created and no operation
/// changes it. `users` holds the members in the order they were added; an
/// address may be on the list more than once.
#[derive(Clone, Debug, PartialEq)]
pub struct State {
    pub users: Vec<Addr>,
    pub owner: Addr,
}

/// A [`State`] as plain text: what the operations are stated over.
pub struct StateView {
    pub users: Seq<Seq<char>>,
    pub owner: Seq<char>,
}

/// The texts of a sequence of addresses.
pub open spec fn identities(addrs: Seq<Addr>) -> Seq<Seq<char>> {
    addrs.map_values(|addr: Addr| addr@)
}

impl View for State {
    type V = StateView;

    open spec fn view(&self) -> StateView {
        StateView { users: identities(self.users@), owner: self.owner@ }
    }
}

impl State {
    /// Whether `caller` is the owner of the list.
    pub fn is_owner(&self, caller: &Addr) -> (yes: bool)
        ensures
            yes == (self@.owner == caller@),
    {
        self.owner == *caller
    }
}

} // verus!
