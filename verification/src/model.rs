//! What the operations on the allow-list do, over plain sequences of text.
//!
//! An address is its text, a list of members is a sequence of such texts, and
//! whether a text is a well-formed address is for the chain to say: each
//! operation that takes an address from its caller is stated for every
//! [`Answer`] the chain may give.

use crate::address::Addr;
use crate::error::Refusal;
use crate::state::StateView;
use cosmwasm_std::StdError;
use vstd::prelude::*;

verus! {

/// The texts of a sequence of strings.
pub open spec fn texts(strings: Seq<String>) -> Seq<Seq<char>> {
    strings.map_values(|s: String| s@)
}

/// What the chain said of an address it was asked to validate: the text it
/// accepted, or its error.
pub type Answer = Result<Seq<char>, StdError>;

/// The answer that a validation result stands for.
pub open spec fn answer_of(validated: Result<Addr, StdError>) -> Answer {
    match validated {
        Ok(addr) => Ok(addr@),
        Err(err) => Err(err),
    }
}

/// The answers that a sequence of validation results stands for.
pub open spec fn answers_of(validated: Seq<Result<Addr, StdError>>) -> Seq<Answer> {
    validated.map_values(|one: Result<Addr, StdError>| answer_of(one))
}

/// Whether `answer` is one the chain may give when asked about `human`: if it
/// accepts, the address it returns is the text it was asked about.
pub open spec fn may_answer(human: Seq<char>, answer: Answer) -> bool {
    answer matches Ok(user) ==> user == human
}

/// Whether `answers` may be what the chain says of `humans`, one by one.
pub open spec fn may_answer_each(humans: Seq<Seq<char>>, answers: Seq<Answer>) -> bool {
    &&& answers.len() == humans.len()
    &&& forall|i: int| 0 <= i < humans.len() ==> may_answer(humans[i], #[trigger] answers[i])
}

/// The list as it is created: `owner` owns it, and nobody is on it.
pub open spec fn initial_state(owner: Seq<char>) -> StateView {
    StateView { users: Seq::empty(), owner }
}

/// Creating the list. A list is created once: where one exists already,
/// the request is refused, whoever sends it.
pub open spec fn after_instantiate(existing: Option<StateView>, owner: Seq<char>) -> Result<
    StateView,
    Refusal,
> {
    match existing {
        Some(_) => Err(Refusal::AlreadyInitialized),
        None => Ok(initial_state(owner)),
    }
}

/// Whether `caller` owns the list.
pub open spec fn is_owner(state: StateView, caller: Seq<char>) -> bool {
    state.owner == caller
}

/// The members of the list, in the order of the list.
pub open spec fn listed(state: StateView) -> Seq<Seq<char>> {
    state.users
}

/// Whether `user` is on the list.
pub open spec fn on_list(state: StateView, user: Seq<char>) -> bool {
    state.users.contains(user)
}

/// Whether `at` is the first place where `users` holds `user`.
pub open spec fn first_at(users: Seq<Seq<char>>, user: Seq<char>, at: int) -> bool {
    &&& 0 <= at < users.len()
    &&& users[at] == user
    &&& forall|before: int| 0 <= before < at ==> users[before] != user
}

/// Adding one address. The address is validated first; then the caller must
/// be the owner; then the address goes to the end of the list, whether or
/// not it is on it already.
pub open spec fn after_add_user(state: StateView, caller: Seq<char>, answer: Answer) -> Result<
    StateView,
    Refusal,
> {
    match answer {
        Err(err) => Err(Refusal::Std(err)),
        Ok(user) => if is_owner(state, caller) {
            Ok(StateView { users: state.users.push(user), owner: state.owner })
        } else {
            Err(Refusal::Unauthorized)
        },
    }
}

/// Removing one address. The address is validated first; then the caller
/// must be the owner; then the address must be on the list, and its first
/// occurrence leaves it.
pub open spec fn after_remove_user(state: StateView, caller: Seq<char>, answer: Answer) -> Result<
    StateView,
    Refusal,
> {
    match answer {
        Err(err) => Err(Refusal::Std(err)),
        Ok(user) => if !is_owner(state, caller) {
            Err(Refusal::Unauthorized)
        } else if !on_list(state, user) {
            Err(Refusal::NotFound { user })
        } else {
            Ok(StateView { users: state.users.remove_value(user), owner: state.owner })
        },
    }
}

/// `users` after each of `answers`, in order, has been put at its end. The
/// first address that the chain did not accept ends the batch with its error.
pub open spec fn with_all_added(users: Seq<Seq<char>>, answers: Seq<Answer>) -> Result<
    Seq<Seq<char>>,
    Refusal,
>
    decreases answers.len(),
{
    if answers.len() == 0 {
        Ok(users)
    } else {
        match answers.first() {
            Err(err) => Err(Refusal::Std(err)),
            Ok(user) => with_all_added(users.push(user), answers.drop_first()),
        }
    }
}

/// `users` after the first occurrence of each of `answers`, in order, has
/// left it. The first address that the chain did not accept, or that is not
/// on the list when its turn comes, ends the batch with its error.
pub open spec fn with_all_removed(users: Seq<Seq<char>>, answers: Seq<Answer>) -> Result<
    Seq<Seq<char>>,
    Refusal,
>
    decreases answers.len(),
{
    if answers.len() == 0 {
        Ok(users)
    } else {
        match answers.first() {
            Err(err) => Err(Refusal::Std(err)),
            Ok(user) => if users.contains(user) {
                with_all_removed(users.remove_value(user), answers.drop_first())
            } else {
                Err(Refusal::NotFound { user })
            },
        }
    }
}

/// Adding and removing in one batch: all of `adds` first, then all of
/// `removes`. Nobody's ownership is asked for. A batch that fails anywhere
/// yields no state at all.
pub open spec fn after_update_users(
    state: StateView,
    adds: Seq<Answer>,
    removes: Seq<Answer>,
) -> Result<StateView, Refusal> {
    match with_all_added(state.users, adds) {
        Err(refusal) => Err(refusal),
        Ok(grown) => match with_all_removed(grown, removes) {
            Err(refusal) => Err(refusal),
            Ok(users) => Ok(StateView { users, owner: state.owner }),
        },
    }
}

/// The answers of a chain that accepts every one of `humans`.
pub open spec fn all_accepted(humans: Seq<Seq<char>>) -> Seq<Answer> {
    humans.map_values(|human: Seq<char>| Ok::<Seq<char>, StdError>(human))
}

/// The first occurrence of a text is where `index_of_first` says, and
/// removing the text by value removes it there.
pub proof fn lemma_first_at(users: Seq<Seq<char>>, user: Seq<char>, at: int)
    requires
        first_at(users, user, at),
    ensures
        users.contains(user),
        users.index_of_first(user) == Some(at),
        users.remove_value(user) == users.remove(at),
{
    users.index_of_first_ensures(user);
}

} // verus!
