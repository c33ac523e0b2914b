//! What the contracts of the operations imply.
//!
//! Each law speaks of one call: `pre` is the state before it, `post` the
//! state after it and `done` its result, as the contract of the operation
//! relates them.

use crate::contract::{
    add_user_done, execute_done, instantiate_done, plain, remove_user_done, settled, tagged,
};
use crate::error::{ContractError, Refusal};
use crate::host::{response_attributes, Response};
use crate::model::{
    after_add_user, after_remove_user, after_update_users, all_accepted, first_at, initial_state,
    is_owner, listed, on_list, with_all_added, with_all_removed, Answer,
};
use crate::msg::ExecuteMsg;
use crate::state::{State, StateView};
use cosmwasm_std::StdError;
use vstd::prelude::*;

verus! {

broadcast use vstd::multiset::group_multiset_axioms;

/// A list that was just created has nobody on it, and it is owned by the one
/// who created it and by nobody else.
pub proof fn law_created_list_is_empty(owner: Seq<char>)
    ensures
        listed(initial_state(owner)) == Seq::<Seq<char>>::empty(),
        forall|user: Seq<char>| !on_list(initial_state(owner), user),
        forall|caller: Seq<char>| is_owner(initial_state(owner), caller) <==> caller == owner,
{
}

/// Creating a list where there is none succeeds: the new list has nobody on
/// it and is owned by the sender, and the response is plain and names the
/// method and the owner, in this order.
pub proof fn law_first_creation_succeeds(
    sender: Seq<char>,
    made: Result<(State, Response), ContractError>,
)
    requires
        instantiate_done(None, sender, made),
    ensures
        made matches Ok(pair) && listed(pair.0@) == Seq::<Seq<char>>::empty() && is_owner(
            pair.0@,
            sender,
        ) && response_attributes(pair.1) == seq![("method"@, "instantiate"@), ("owner"@, sender)]
            && plain(pair.1),
{
}

/// A list is created once: where one exists, creating it again is refused,
/// whoever asks, so the owner of a list is the one who created it first.
pub proof fn law_created_once(
    existing: &State,
    sender: Seq<char>,
    made: Result<(State, Response), ContractError>,
)
    requires
        instantiate_done(Some(existing), sender, made),
    ensures
        made matches Err(err) && err@ == Refusal::AlreadyInitialized,
{
}

/// A request that is granted answers with a plain response: it asks the
/// chain for nothing and carries nothing but its attributes.
pub proof fn law_granted_request_answers_plainly(
    pre: State,
    sender: Seq<char>,
    msg: ExecuteMsg,
    post: State,
    done: Result<Response, ContractError>,
)
    requires
        execute_done(pre, sender, msg, post, done),
    ensures
        done matches Ok(response) ==> plain(response),
{
}

/// When the owner adds an address that the chain accepts, the request
/// succeeds; the list is then the old list with the address at its end, so
/// the address is listed, and asking for it finds it.
pub proof fn law_owner_adds(
    pre: State,
    sender: Seq<char>,
    user: Seq<char>,
    post: State,
    done: Result<Response, ContractError>,
)
    requires
        is_owner(pre@, sender),
        settled(after_add_user(pre@, sender, Ok(user)), "add_user"@, pre, post, done),
    ensures
        done matches Ok(response) && response_attributes(response) == tagged("add_user"@) && plain(
            response,
        ),
        listed(post@) == listed(pre@).push(user),
        listed(post@).contains(user),
        on_list(post@, user),
{
    assert(listed(post@).last() == user);
}

/// When anyone but the owner adds an address that the chain accepts, the
/// request is refused as unauthorized and the state stays as it was.
pub proof fn law_stranger_cannot_add(
    pre: State,
    sender: Seq<char>,
    user: Seq<char>,
    post: State,
    done: Result<Response, ContractError>,
)
    requires
        !is_owner(pre@, sender),
        settled(after_add_user(pre@, sender, Ok(user)), "add_user"@, pre, post, done),
    ensures
        done matches Err(err) && err@ == Refusal::Unauthorized,
        post == pre,
{
}

/// When the chain does not accept the address to add, the request is
/// refused with the chain's error, whoever sent it, and the state stays as it
/// was.
pub proof fn law_malformed_is_not_added(
    pre: State,
    sender: Seq<char>,
    refused: StdError,
    post: State,
    done: Result<Response, ContractError>,
)
    requires
        settled(after_add_user(pre@, sender, Err(refused)), "add_user"@, pre, post, done),
    ensures
        done matches Err(err) && err@ == Refusal::Std(refused),
        post == pre,
{
}

/// When the owner removes an address that is on the list, the request
/// succeeds and exactly one occurrence leaves the list, the first: the list
/// is one shorter, the address is on it once less, and every other address as
/// often as before. If it was on the list once, it is on it no more.
pub proof fn law_owner_removes(
    pre: State,
    sender: Seq<char>,
    user: Seq<char>,
    post: State,
    done: Result<Response, ContractError>,
)
    requires
        is_owner(pre@, sender),
        on_list(pre@, user),
        settled(after_remove_user(pre@, sender, Ok(user)), "remove_user"@, pre, post, done),
    ensures
        done is Ok,
        exists|at: int| #[trigger]
            first_at(listed(pre@), user, at) && listed(post@) == listed(pre@).remove(at),
        listed(post@).len() == listed(pre@).len() - 1,
        listed(post@).to_multiset() == listed(pre@).to_multiset().remove(user),
        listed(pre@).to_multiset().count(user) == 1 ==> !on_list(post@, user),
{
    let before = listed(pre@);
    before.index_of_first_ensures(user);
    let at = before.index_of_first(user)->0;
    assert(first_at(before, user, at));
    vstd::seq_lib::to_multiset_remove(before, at);
    before.to_multiset_ensures();
    listed(post@).to_multiset_ensures();
    if before.to_multiset().count(user) == 1 {
        assert(listed(post@).to_multiset().count(user) == 0);
    }
}

/// When the owner removes an address that the chain accepts and that is not
/// on the list, the request is refused as not found, naming the address, and
/// the state stays as it was.
pub proof fn law_absent_is_not_removed(
    pre: State,
    sender: Seq<char>,
    user: Seq<char>,
    post: State,
    done: Result<Response, ContractError>,
)
    requires
        is_owner(pre@, sender),
        !on_list(pre@, user),
        settled(after_remove_user(pre@, sender, Ok(user)), "remove_user"@, pre, post, done),
    ensures
        done matches Err(err) && err@ == (Refusal::NotFound { user }),
        post == pre,
{
}

/// When anyone but the owner removes an address that the chain accepts, the
/// request is refused as unauthorized, whether the address is on the list or
/// not, and the state stays as it was.
pub proof fn law_stranger_cannot_remove(
    pre: State,
    sender: Seq<char>,
    user: Seq<char>,
    post: State,
    done: Result<Response, ContractError>,
)
    requires
        !is_owner(pre@, sender),
        settled(after_remove_user(pre@, sender, Ok(user)), "remove_user"@, pre, post, done),
    ensures
        done matches Err(err) && err@ == Refusal::Unauthorized,
        post == pre,
{
}

/// Whatever the chain says of the addresses in a request, a request that is
/// refused leaves the state as it was.
pub proof fn law_refusal_changes_nothing(
    pre: State,
    sender: Seq<char>,
    msg: ExecuteMsg,
    post: State,
    done: Result<Response, ContractError>,
)
    requires
        execute_done(pre, sender, msg, post, done),
        done is Err,
    ensures
        post == pre,
{
}

/// Whatever the chain says of the address, only the owner adds or removes a
/// single address: such a request, when it is granted, came from the owner.
pub proof fn law_only_owner_adds_or_removes(
    pre: State,
    sender: Seq<char>,
    user: Seq<char>,
    post: State,
    done: Result<Response, ContractError>,
)
    requires
        add_user_done(pre, sender, user, post, done) || remove_user_done(
            pre,
            sender,
            user,
            post,
            done,
        ),
        done is Ok,
    ensures
        is_owner(pre@, sender),
{
}

/// Whatever the request and whatever the chain says of its addresses, the
/// owner of the list after the request is its owner before.
pub proof fn law_request_keeps_owner(
    pre: State,
    sender: Seq<char>,
    msg: ExecuteMsg,
    post: State,
    done: Result<Response, ContractError>,
)
    requires
        execute_done(pre, sender, msg, post, done),
    ensures
        post@.owner == pre@.owner,
{
}

/// No operation changes the owner: whatever the caller, the answers of the
/// chain and the batch, the state that an operation yields has the owner of
/// the state it started from.
pub proof fn law_owner_is_kept(
    state: StateView,
    caller: Seq<char>,
    answer: Answer,
    adds: Seq<Answer>,
    removes: Seq<Answer>,
)
    ensures
        after_add_user(state, caller, answer) matches Ok(next) ==> next.owner == state.owner,
        after_remove_user(state, caller, answer) matches Ok(next) ==> next.owner == state.owner,
        after_update_users(state, adds, removes) matches Ok(next) ==> next.owner == state.owner,
{
}

/// A batch of additions that the chain accepts one and all puts them at the
/// end of the list, in their order.
pub proof fn law_batch_adds_in_order(users: Seq<Seq<char>>, accepted: Seq<Seq<char>>)
    ensures
        with_all_added(users, all_accepted(accepted)) == Ok::<Seq<Seq<char>>, Refusal>(
            users + accepted,
        ),
    decreases accepted.len(),
{
    if accepted.len() > 0 {
        let rest = accepted.drop_first();
        law_batch_adds_in_order(users.push(accepted.first()), rest);
        assert(all_accepted(accepted).drop_first() == all_accepted(rest));
        assert(users.push(accepted.first()) + rest == users + accepted);
    }
}

/// A batch that only adds, and whose addresses the chain accepts one and all,
/// succeeds for every caller and leaves the old list with the new addresses
/// at its end, in their order.
pub proof fn law_batch_of_additions(state: StateView, accepted: Seq<Seq<char>>)
    ensures
        after_update_users(state, all_accepted(accepted), Seq::empty()) == Ok::<
            StateView,
            Refusal,
        >(StateView { users: state.users + accepted, owner: state.owner }),
{
    law_batch_adds_in_order(state.users, accepted);
}

/// A batch that only removes one address, which the chain accepts, does what
/// removing it by the owner does: the first occurrence leaves the list, or the
/// batch is refused because the address is not on it.
pub proof fn law_batch_of_one_removal(state: StateView, user: Seq<char>)
    ensures
        after_update_users(state, Seq::empty(), seq![Ok::<Seq<char>, StdError>(user)])
            == after_remove_user(state, state.owner, Ok(user)),
{
    reveal_with_fuel(with_all_removed, 2);
}

/// A batch with nothing to add and nothing to remove succeeds and leaves the
/// list as it was.
pub proof fn law_empty_batch(state: StateView)
    ensures
        after_update_users(state, Seq::empty(), Seq::empty()) == Ok::<StateView, Refusal>(state),
{
}

} // verus!
