//! What the surrounding chain provides, and what is believed of it.
//!
//! Nothing in this file is proved. Each item names the `cosmwasm_std` item it
//! stands for and says what is taken on trust about it.

use crate::address::Addr;
use cosmwasm_std::{Deps, StdError};
use vstd::prelude::*;

verus! {

/// `cosmwasm_std::Deps`: the handle through which a contract reaches the
/// chain. It is carried through to [`addr_validate`] and never looked into.
#[verifier::external_type_specification]
#[verifier::external_body]
pub struct ExDeps<'a>(Deps<'a>);

/// `cosmwasm_std::StdError`: the error the chain reports. It is carried
/// through unchanged and never looked into.
#[verifier::external_type_specification]
#[verifier::external_body]
pub struct ExStdError(StdError);

/// Asks the chain whether `human` is a well-formed, normalized address, by
/// `cosmwasm_std::Api::addr_validate` on `deps.api`.
///
/// Believed: an accepted address carries exactly the text that was asked
/// about. Whether a text is accepted is the chain's decision, and nothing is
/// claimed about it.
#[verifier::external_body]
pub(crate) fn addr_validate(deps: Deps, human: &str) -> (checked: Result<Addr, StdError>)
    ensures
        checked matches Ok(addr) ==> addr@ == human@,
{
    match deps.api.addr_validate(human) {
        Ok(addr) => Ok(Addr { text: addr.into_string() }),
        Err(err) => Err(err),
    }
}

/// The answer of an entry point to the chain: a `cosmwasm_std::Response`.
///
/// Its contents are opaque to the verifier. [`response_attributes`] names the
/// attributes it carries, and [`response_messages`], [`response_events`] and
/// [`response_has_data`] the rest of what it holds.
#[verifier::external_body]
#[derive(Debug)]
pub struct Response {
    pub inner: cosmwasm_std::Response,
}

/// The attributes of a response, in the order they were added, each as its
/// key and its value.
pub uninterp spec fn response_attributes(response: Response) -> Seq<(Seq<char>, Seq<char>)>;

/// The number of messages that a response asks the chain to carry out.
pub uninterp spec fn response_messages(response: Response) -> nat;

/// The number of events, beside its attributes, that a response emits.
pub uninterp spec fn response_events(response: Response) -> nat;

/// Whether a response carries a data payload.
pub uninterp spec fn response_has_data(response: Response) -> bool;

/// `cosmwasm_std::Response::new`. Believed: the new response has no
/// attributes, no messages, no events and no data.
#[verifier::external_body]
pub(crate) fn response_new() -> (response: Response)
    ensures
        response_attributes(response) == Seq::<(Seq<char>, Seq<char>)>::empty(),
        response_messages(response) == 0,
        response_events(response) == 0,
        !response_has_data(response),
{
    Response { inner: cosmwasm_std::Response::new() }
}

/// `cosmwasm_std::Response::add_attribute`. Believed: the attribute is put
/// after those already there, and messages, events and data stay as they
/// were. Keys that begin with an underscore are left out, because debug
/// builds of `cosmwasm_std` panic on them.
#[verifier::external_body]
pub(crate) fn response_add_attribute(response: Response, key: &str, value: &str) -> (out: Response)
    requires
        key@.len() > 0 ==> key@[0] != '_',
    ensures
        response_attributes(out) == response_attributes(response).push((key@, value@)),
        response_messages(out) == response_messages(response),
        response_events(out) == response_events(response),
        response_has_data(out) == response_has_data(response),
{
    Response { inner: response.inner.add_attribute(key, value) }
}

} // verus!
