//! Addresses: the identities that own and populate the allow-list.

use vstd::prelude::*;
use vstd::std_specs::cmp::PartialEqSpecImpl;

verus! {

/// A human readable address, held as the text it was given as.
///
/// Two addresses are the same identity exactly when their texts are equal;
/// the view of an address is its text.
#[derive(Debug)]
pub struct Addr {
    pub(crate) text: String,
}

impl View for Addr {
    type V = Seq<char>;

    closed spec fn view(&self) -> Seq<char> {
        self.text@
    }
}

impl Addr {
    /// Takes `input` as an address without asking anyone whether it is a
    /// well-formed one.
    pub fn unchecked(input: &str) -> (addr: Addr)
        ensures
            addr@ == input@,
    {
        Addr { text: input.to_owned() }
    }

    /// The text of the address.
    pub fn as_str(&self) -> (text: &str)
        ensures
            text@ == self@,
    {
        self.text.as_str()
    }

    /// The text of the address, as an owned string.
    pub fn to_string(&self) -> (text: String)
        ensures
            text@ == self@,
    {
        self.text.clone()
    }

    /// Gives up the address for its text.
    pub fn into_string(self) -> (text: String)
        ensures
            text@ == self@,
    {
        self.text
    }
}

impl Clone for Addr {
    fn clone(&self) -> (copy: Addr)
        ensures
            copy == *self,
    {
        Addr { text: self.text.clone() }
    }
}

impl PartialEq for Addr {
    fn eq(&self, other: &Addr) -> (same: bool) {
        self.text == other.text
    }
}

impl Eq for Addr {}

impl PartialEqSpecImpl for Addr {
    open spec fn obeys_eq_spec() -> bool {
        true
    }

    open spec fn eq_spec(&self, other: &Addr) -> bool {
        self@ == other@
    }
}

} // verus!
