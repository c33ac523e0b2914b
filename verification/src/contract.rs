//! The operations on the allow-list.
//!
//! An operation that takes an address from its caller first asks the chain
//! whether the address is well-formed. What the chain says is not for this
//! library to know, so each such operation comes twice: `add_user`,
//! `remove_user`, `update_user` and `query_user` ask the chain and are stated
//! for whatever it may answer; `add_validated`, `remove_validated`,
//! `update_validated` and `query_validated` take the answer as an argument,
//! do all the work and are stated exactly.
//!
//! A request that is refused leaves the state as it was.

use crate::address::Addr;
use crate::error::{ContractError, Refusal};
use crate::host::{
    addr_validate, response_add_attribute, response_attributes, response_events,
    response_has_data, response_messages, response_new, Response,
};
use crate::model::{
    after_add_user, after_instantiate, after_remove_user, after_update_users, answer_of,
    answers_of, first_at, initial_state, lemma_first_at, listed, may_answer, may_answer_each,
    on_list, texts, with_all_added, with_all_removed, Answer,
};
use crate::msg::{
    ExecuteMsg, ExistsResponse, InstantiateMsg, QueryMsg, QueryResponse, UsersResponse,
};
use crate::state::{identities, State, StateView};
use cosmwasm_std::{Deps, StdError};
use vstd::prelude::*;

verus! {

/// The attributes of a response that says by which method it was made, and
/// nothing else.
pub open spec fn tagged(method: Seq<char>) -> Seq<(Seq<char>, Seq<char>)> {
    seq![("method"@, method)]
}

/// Whether a response holds nothing but its attributes: no messages for the
/// chain to carry out, no events of its own and no data.
pub open spec fn plain(response: Response) -> bool {
    &&& response_messages(response) == 0
    &&& response_events(response) == 0
    &&& !response_has_data(response)
}

/// Whether an operation that was to turn `pre` into `expected`, or to refuse,
/// has done so: on success `post` is the expected state and `done` a plain
/// response tagged with `method`; on refusal `done` is that refusal and
/// `post` is `pre`, untouched.
pub open spec fn settled(
    expected: Result<StateView, Refusal>,
    method: Seq<char>,
    pre: State,
    post: State,
    done: Result<Response, ContractError>,
) -> bool {
    match expected {
        Ok(next) => done matches Ok(response) && post@ == next && response_attributes(response)
            == tagged(method) && plain(response),
        Err(refusal) => done matches Err(err) && err@ == refusal && post == pre,
    }
}

/// What [`add_user`] may leave: what [`add_validated`] leaves for some answer
/// that the chain may give about `user`.
pub open spec fn add_user_done(
    pre: State,
    sender: Seq<char>,
    user: Seq<char>,
    post: State,
    done: Result<Response, ContractError>,
) -> bool {
    exists|answer: Answer|
        {
            &&& #[trigger] may_answer(user, answer)
            &&& settled(after_add_user(pre@, sender, answer), "add_user"@, pre, post, done)
        }
}

/// What [`remove_user`] may leave: what [`remove_validated`] leaves for some
/// answer that the chain may give about `user`.
pub open spec fn remove_user_done(
    pre: State,
    sender: Seq<char>,
    user: Seq<char>,
    post: State,
    done: Result<Response, ContractError>,
) -> bool {
    exists|answer: Answer|
        {
            &&& #[trigger] may_answer(user, answer)
            &&& settled(after_remove_user(pre@, sender, answer), "remove_user"@, pre, post, done)
        }
}

/// What [`update_user`] may leave: what [`update_validated`] leaves for some
/// answers that the chain may give about the addresses of `add` and of
/// `remove`.
pub open spec fn update_user_done(
    pre: State,
    add: Seq<Seq<char>>,
    remove: Seq<Seq<char>>,
    post: State,
    done: Result<Response, ContractError>,
) -> bool {
    exists|adds: Seq<Answer>, removes: Seq<Answer>|
        {
            &&& #[trigger] may_answer_each(add, adds)
            &&& #[trigger] may_answer_each(remove, removes)
            &&& settled(after_update_users(pre@, adds, removes), "update_users"@, pre, post, done)
        }
}

/// What [`execute`] may leave when `sender` sends `msg`: what the operation
/// that `msg` names may leave.
pub open spec fn execute_done(
    pre: State,
    sender: Seq<char>,
    msg: ExecuteMsg,
    post: State,
    done: Result<Response, ContractError>,
) -> bool {
    match msg {
        ExecuteMsg::AddUser { user } => add_user_done(pre, sender, user@, post, done),
        ExecuteMsg::RemoveUser { user } => remove_user_done(pre, sender, user@, post, done),
        ExecuteMsg::UpdateUsers { add, remove } => update_user_done(
            pre,
            texts(add@),
            texts(remove@),
            post,
            done,
        ),
    }
}

/// A plain response tagged with `method`.
fn tagged_response(method: &str) -> (response: Response)
    ensures
        response_attributes(response) == tagged(method@),
        plain(response),
{
    proof {
        reveal_strlit("method");
    }
    let response = response_add_attribute(response_new(), "method", method);
    response
}

/// Whether [`instantiate`] has done what it was to do: where there was no
/// list, `made` is the new list, owned by `sender` and with nobody on it, and
/// a plain response that names the method and the owner; where there was one,
/// `made` is the refusal.
pub open spec fn instantiate_done(
    existing: Option<&State>,
    sender: Seq<char>,
    made: Result<(State, Response), ContractError>,
) -> bool {
    let before = match existing {
        Some(state) => Some(state@),
        None => None,
    };
    match after_instantiate(before, sender) {
        Ok(next) => {
            &&& made matches Ok(pair)
            &&& pair.0@ == next
            &&& response_attributes(pair.1) == seq![("method"@, "instantiate"@), ("owner"@, sender)]
            &&& plain(pair.1)
        },
        Err(refusal) => made matches Err(err) && err@ == refusal,
    }
}

/// Creates the list: `sender` becomes its owner, and nobody is on it. The
/// response names the method and the owner.
///
/// A list is created once. `existing` is the list that is there already, if
/// any: where there is one, the request is refused and the list stays as it
/// is, owner and members.
pub fn instantiate(existing: Option<&State>, sender: Addr, _msg: InstantiateMsg) -> (made: Result<
    (State, Response),
    ContractError,
>)
    ensures
        instantiate_done(existing, sender@, made),
{
    if existing.is_some() {
        return Err(ContractError::AlreadyInitialized {  });
    }
    proof {
        reveal_strlit("owner");
    }
    let response = response_add_attribute(tagged_response("instantiate"), "owner", sender.as_str());
    assert(response_attributes(response) == seq![
        ("method"@, "instantiate"@),
        ("owner"@, sender@),
    ]);
    let state = State { users: Vec::new(), owner: sender };
    assert(state@.users == initial_state(sender@).users);
    Ok((state, response))
}

/// Carries out the request `msg` of `sender`: [`add_user`], [`remove_user`] or
/// [`update_user`], whichever `msg` names.
pub fn execute(deps: Deps, state: &mut State, sender: &Addr, msg: ExecuteMsg) -> (done: Result<
    Response,
    ContractError,
>)
    ensures
        execute_done(*old(state), sender@, msg, *final(state), done),
{
    match msg {
        ExecuteMsg::AddUser { user } => add_user(deps, state, sender, user),
        ExecuteMsg::RemoveUser { user } => remove_user(deps, state, sender, user),
        ExecuteMsg::UpdateUsers { add, remove } => update_user(deps, state, sender, add, remove),
    }
}

/// Puts `user` at the end of the list. The chain must accept `user` as an
/// address and `sender` must be the owner; they are asked in this order, and
/// the first that fails refuses the request. Whether `user` is on the list
/// already is not asked.
pub fn add_user(deps: Deps, state: &mut State, sender: &Addr, user: String) -> (done: Result<
    Response,
    ContractError,
>)
    ensures
        add_user_done(*old(state), sender@, user@, *final(state), done),
{
    let validated = addr_validate(deps, user.as_str());
    let ghost answer = answer_of(validated);
    let done = add_validated(state, sender, validated);
    assert(may_answer(user@, answer));
    done
}

/// [`add_user`], once the chain has said whether it accepts the address:
/// `validated` is its answer.
pub fn add_validated(state: &mut State, sender: &Addr, validated: Result<Addr, StdError>) -> (done:
    Result<Response, ContractError>)
    ensures
        settled(
            after_add_user(old(state)@, sender@, answer_of(validated)),
            "add_user"@,
            *old(state),
            *final(state),
            done,
        ),
{
    let address = match validated {
        Ok(address) => address,
        Err(err) => {
            return Err(ContractError::Std(err));
        },
    };
    if state.is_owner(sender) {
        assert(identities(state.users@.push(address)) == identities(state.users@).push(address@));
        state.users.push(address);
        Ok(tagged_response("add_user"))
    } else {
        Err(ContractError::Unauthorized {  })
    }
}

/// Removes the first occurrence of `user` from the list. The chain must
/// accept `user` as an address, `sender` must be the owner, and `user` must be
/// on the list; they are asked in this order, and the first that fails
/// refuses the request.
pub fn remove_user(deps: Deps, state: &mut State, sender: &Addr, user: String) -> (done: Result<
    Response,
    ContractError,
>)
    ensures
        remove_user_done(*old(state), sender@, user@, *final(state), done),
{
    let validated = addr_validate(deps, user.as_str());
    let ghost answer = answer_of(validated);
    let done = remove_validated(state, sender, validated);
    assert(may_answer(user@, answer));
    done
}

/// [`remove_user`], once the chain has said whether it accepts the address:
/// `validated` is its answer.
pub fn remove_validated(state: &mut State, sender: &Addr, validated: Result<Addr, StdError>) -> (done:
    Result<Response, ContractError>)
    ensures
        settled(
            after_remove_user(old(state)@, sender@, answer_of(validated)),
            "remove_user"@,
            *old(state),
            *final(state),
            done,
        ),
{
    let address = match validated {
        Ok(address) => address,
        Err(err) => {
            return Err(ContractError::Std(err));
        },
    };
    if state.is_owner(sender) {
        let ghost user = address@;
        let at = match find_index(&state.users, address) {
            Ok(at) => at,
            Err(err) => {
                return Err(err);
            },
        };
        proof {
            lemma_first_at(identities(state.users@), user, at as int);
        }
        assert(identities(state.users@.remove(at as int)) == identities(state.users@).remove(
            at as int,
        ));
        state.users.remove(at);
        Ok(tagged_response("remove_user"))
    } else {
        Err(ContractError::Unauthorized {  })
    }
}

/// Adds all of `add` to the list, in order, and then removes the first
/// occurrence of each of `remove`, in order. The chain is asked about every
/// address of both, by [`validate_each`], before the list is touched;
/// [`update_validated`] does the rest. The first address the chain did not
/// accept, or the first to remove that is not on the list when its turn
/// comes, refuses the whole batch.
///
/// `_sender` is not consulted: a batch is open to every caller, the owner or
/// not.
pub fn update_user(
    deps: Deps,
    state: &mut State,
    _sender: &Addr,
    add: Vec<String>,
    remove: Vec<String>,
) -> (done: Result<Response, ContractError>)
    ensures
        update_user_done(*old(state), texts(add@), texts(remove@), *final(state), done),
{
    let added = validate_each(deps, &add);
    let removed = validate_each(deps, &remove);
    let ghost adds = answers_of(added@);
    let ghost removes = answers_of(removed@);
    let done = update_validated(state, added, removed);
    assert(may_answer_each(texts(add@), adds) && may_answer_each(texts(remove@), removes));
    done
}

/// Asks the chain about each of `humans`, in order, and keeps every answer:
/// as many answers as addresses, each about the address in its place.
pub fn validate_each(deps: Deps, humans: &Vec<String>) -> (validated: Vec<Result<Addr, StdError>>)
    ensures
        may_answer_each(texts(humans@), answers_of(validated@)),
{
    let mut validated: Vec<Result<Addr, StdError>> = Vec::new();
    let mut at: usize = 0;
    while at < humans.len()
        invariant
            at <= humans.len(),
            validated.len() == at,
            forall|i: int|
                0 <= i < at ==> may_answer(texts(humans@)[i], #[trigger] answers_of(validated@)[i]),
        decreases humans.len() - at,
    {
        let one = addr_validate(deps, humans[at].as_str());
        assert(answers_of(validated@.push(one)) == answers_of(validated@).push(answer_of(one)));
        validated.push(one);
        at += 1;
    }
    validated
}

/// [`update_user`], once the chain has said of each address whether it
/// accepts it: `add` and `remove` hold its answers, in the order of the
/// addresses.
pub fn update_validated(
    state: &mut State,
    add: Vec<Result<Addr, StdError>>,
    remove: Vec<Result<Addr, StdError>>,
) -> (done: Result<Response, ContractError>)
    ensures
        settled(
            after_update_users(old(state)@, answers_of(add@), answers_of(remove@)),
            "update_users"@,
            *old(state),
            *final(state),
            done,
        ),
{
    let mut users = state.users.clone();
    let ghost given = add@;
    let ghost adds = answers_of(add@);
    let ghost removes = answers_of(remove@);
    assert(adds.skip(0) == adds);
    for one in it: add
        invariant
            it.seq() == given,
            adds == answers_of(given),
            *state == *old(state),
            with_all_added(identities(users@), adds.skip(it.index())) == with_all_added(
                identities(old(state).users@),
                adds,
            ),
    {
        let ghost rest = adds.skip(it.index());
        assert(rest.drop_first() == adds.skip(it.index() + 1));
        match one {
            Err(err) => {
                return Err(ContractError::Std(err));
            },
            Ok(address) => {
                assert(identities(users@.push(address)) == identities(users@).push(address@));
                users.push(address);
            },
        }
    }
    let ghost grown = identities(users@);
    let ghost taken = remove@;
    assert(removes.skip(0) == removes);
    for one in it: remove
        invariant
            it.seq() == taken,
            removes == answers_of(taken),
            adds == answers_of(add@),
            *state == *old(state),
            with_all_added(identities(old(state).users@), adds) == Ok::<Seq<Seq<char>>, Refusal>(
                grown,
            ),
            with_all_removed(identities(users@), removes.skip(it.index())) == with_all_removed(
                grown,
                removes,
            ),
    {
        let ghost rest = removes.skip(it.index());
        assert(rest.drop_first() == removes.skip(it.index() + 1));
        match one {
            Err(err) => {
                return Err(ContractError::Std(err));
            },
            Ok(address) => {
                match find_index(&users, address) {
                    Err(err) => {
                        return Err(err);
                    },
                    Ok(at) => {
                        proof {
                            lemma_first_at(identities(users@), address@, at as int);
                        }
                        assert(identities(users@.remove(at as int)) == identities(users@).remove(
                            at as int,
                        ));
                        users.remove(at);
                    },
                }
            },
        }
    }
    state.users = users;
    Ok(tagged_response("update_users"))
}

/// Where `user` first stands in `users`, or [`ContractError::NotFound`] with
/// the text of `user` if it stands nowhere.
pub fn find_index(users: &Vec<Addr>, user: Addr) -> (found: Result<usize, ContractError>)
    ensures
        found is Ok <==> identities(users@).contains(user@),
        found matches Ok(at) ==> first_at(identities(users@), user@, at as int),
        found matches Err(err) ==> err@ == (Refusal::NotFound { user: user@ }),
{
    let mut at: usize = 0;
    while at < users.len()
        invariant
            at <= users.len(),
            forall|before: int| 0 <= before < at ==> identities(users@)[before] != user@,
        decreases users.len() - at,
    {
        if users[at] == user {
            assert(identities(users@)[at as int] == user@);
            return Ok(at);
        }
        at += 1;
    }
    Err(ContractError::NotFound { user: user.into_string() })
}

/// Answers the question `msg`: [`query_users`] or [`query_user`], whichever
/// `msg` names.
pub fn query(deps: Deps, state: &State, msg: QueryMsg) -> (answered: Result<QueryResponse, StdError>)
    ensures
        match msg {
            QueryMsg::Users {  } => answered matches Ok(QueryResponse::Users(response)) && texts(
                response.users@,
            ) == listed(state@),
            QueryMsg::User { user } => answered matches Ok(response) ==> response
                == QueryResponse::User(ExistsResponse { exists: on_list(state@, user@) }),
        },
{
    match msg {
        QueryMsg::Users {  } => Ok(QueryResponse::Users(query_users(state))),
        QueryMsg::User { user } => match query_user(deps, state, user) {
            Ok(found) => Ok(QueryResponse::User(found)),
            Err(err) => Err(err),
        },
    }
}

/// The members of the list as strings, in the order of the list.
pub fn query_users(state: &State) -> (response: UsersResponse)
    ensures
        texts(response.users@) == listed(state@),
{
    let mut users: Vec<String> = Vec::new();
    let mut at: usize = 0;
    while at < state.users.len()
        invariant
            at <= state.users.len(),
            users.len() == at,
            forall|i: int| 0 <= i < at ==> (#[trigger] users[i])@ == state.users[i]@,
        decreases state.users.len() - at,
    {
        users.push(state.users[at].to_string());
        at += 1;
    }
    UsersResponse { users }
}

/// Whether `user` is on the list. The chain must accept `user` as an
/// address; if it does not, its error is handed on.
pub fn query_user(deps: Deps, state: &State, user: String) -> (found: Result<
    ExistsResponse,
    StdError,
>)
    ensures
        found matches Ok(response) ==> response.exists == on_list(state@, user@),
{
    let validated = addr_validate(deps, user.as_str());
    query_validated(state, validated)
}

/// [`query_user`], once the chain has said whether it accepts the address:
/// `validated` is its answer.
pub fn query_validated(state: &State, validated: Result<Addr, StdError>) -> (found: Result<
    ExistsResponse,
    StdError,
>)
    ensures
        match answer_of(validated) {
            Ok(user) => found == Ok::<ExistsResponse, StdError>(
                ExistsResponse { exists: on_list(state@, user) },
            ),
            Err(err) => found == Err::<ExistsResponse, StdError>(err),
        },
{
    match validated {
        Ok(address) => Ok(ExistsResponse { exists: find_index(&state.users, address).is_ok() }),
        Err(err) => Err(err),
    }
}

} // verus!
