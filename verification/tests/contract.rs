//! The operations as a contract sees them: with a chain behind them that
//! validates addresses.

use allowlist::address::Addr;
use allowlist::contract::{
    add_user, execute, instantiate, query, query_user, query_users, remove_user, update_user,
    validate_each,
};
use allowlist::host::Response;
use allowlist::error::ContractError;
use allowlist::msg::{
    ExecuteMsg, ExistsResponse, InstantiateMsg, QueryMsg, QueryResponse, UsersResponse,
};
use allowlist::state::State;
use cosmwasm_std::testing::{mock_dependencies, mock_info};
use cosmwasm_std::{coins, Attribute, StdError};

const WASM_USER: &str = "wasm1hu8dr4t235qcpuu7ej73mr43ncsg86xdj3s6yw";

fn created_by(creator: &str) -> State {
    instantiate(None, Addr::unchecked(creator), InstantiateMsg {}).unwrap().0
}

fn users_of(state: &State) -> Vec<String> {
    query_users(state).users
}

fn is_plain(res: &Response) -> bool {
    res.inner.messages.is_empty() && res.inner.events.is_empty() && res.inner.data.is_none()
}

fn attributes(pairs: &[(&str, &str)]) -> Vec<Attribute> {
    pairs.iter().map(|(key, value)| Attribute::new(*key, *value)).collect()
}

#[test]
fn proper_initialization() {
    let deps = mock_dependencies(&[]);

    let msg = InstantiateMsg {};
    let info = mock_info("creator", &coins(1000, "earth"));

    let (state, res) = instantiate(None, Addr::unchecked(info.sender.as_str()), msg).unwrap();
    assert_eq!(0, res.inner.messages.len());

    // it worked, let's query the state
    let res = query(deps.as_ref(), &state, QueryMsg::Users {}).unwrap();
    let value: UsersResponse = match res {
        QueryResponse::Users(value) => value,
        other => panic!("unexpected answer: {:?}", other),
    };
    assert_eq!(0, value.users.iter().len());
}

#[test]
#[allow(non_snake_case)]
fn AddUser() {
    let deps = mock_dependencies(&coins(2, "token"));

    let msg = InstantiateMsg {};
    let info = mock_info("creator", &coins(2, "token"));
    let (mut state, _res) =
        instantiate(None, Addr::unchecked(info.sender.as_str()), msg).unwrap();

    let info = mock_info("creator", &coins(2, "token"));
    let msg = ExecuteMsg::AddUser {
        user: String::from("wasm1hu8dr4t235qcpuu7ej73mr43ncsg86xdj3s6yw"),
    };
    let _res =
        execute(deps.as_ref(), &mut state, &Addr::unchecked(info.sender.as_str()), msg).unwrap();

    let res = query(deps.as_ref(), &state, QueryMsg::Users {}).unwrap();
    let value: UsersResponse = match res {
        QueryResponse::Users(value) => value,
        other => panic!("unexpected answer: {:?}", other),
    };
    assert_eq!(
        true,
        value.users.contains(&String::from("wasm1hu8dr4t235qcpuu7ej73mr43ncsg86xdj3s6yw"))
    );
}

#[test]
fn instantiate_makes_the_sender_owner_of_an_empty_list() {
    let (state, _) = instantiate(None, Addr::unchecked("creator"), InstantiateMsg {}).unwrap();
    assert_eq!(state.owner, Addr::unchecked("creator"));
    assert!(state.users.is_empty());
    assert!(state.is_owner(&Addr::unchecked("creator")));
    assert!(!state.is_owner(&Addr::unchecked("anyone")));
}

#[test]
fn instantiate_answers_with_method_and_owner() {
    let (_, res) = instantiate(None, Addr::unchecked("creator"), InstantiateMsg {}).unwrap();
    assert_eq!(
        res.inner.attributes,
        attributes(&[("method", "instantiate"), ("owner", "creator")])
    );
    assert!(res.inner.messages.is_empty());
    assert!(res.inner.events.is_empty());
    assert!(res.inner.data.is_none());
}

#[test]
fn instantiate_is_refused_where_a_list_exists() {
    let deps = mock_dependencies(&[]);
    let owner = Addr::unchecked("creator");
    let mut state = created_by("creator");
    add_user(deps.as_ref(), &mut state, &owner, "alice".to_string()).unwrap();
    let before = state.clone();

    let err =
        instantiate(Some(&state), Addr::unchecked("anyone"), InstantiateMsg {}).unwrap_err();
    assert_eq!(err, ContractError::AlreadyInitialized {});
    // the one who created it is refused as well
    let err =
        instantiate(Some(&state), Addr::unchecked("creator"), InstantiateMsg {}).unwrap_err();
    assert_eq!(err, ContractError::AlreadyInitialized {});
    assert_eq!(state, before);
    assert_eq!(state.owner, Addr::unchecked("creator"));
}

#[test]
fn granted_requests_answer_with_nothing_but_their_tag() {
    let deps = mock_dependencies(&[]);
    let owner = Addr::unchecked("creator");
    let mut state = created_by("creator");
    let res = add_user(deps.as_ref(), &mut state, &owner, "alice".to_string()).unwrap();
    assert_eq!(res.inner.attributes, attributes(&[("method", "add_user")]));
    assert!(is_plain(&res));
    let res = remove_user(deps.as_ref(), &mut state, &owner, "alice".to_string()).unwrap();
    assert_eq!(res.inner.attributes, attributes(&[("method", "remove_user")]));
    assert!(is_plain(&res));
    let res =
        update_user(deps.as_ref(), &mut state, &owner, vec!["bob".to_string()], vec![]).unwrap();
    assert_eq!(res.inner.attributes, attributes(&[("method", "update_users")]));
    assert!(is_plain(&res));
}

#[test]
fn validate_each_answers_for_every_address_in_its_place() {
    let deps = mock_dependencies(&[]);
    let answers = validate_each(
        deps.as_ref(),
        &vec!["alice".to_string(), "x".to_string(), "Bob".to_string(), "carol".to_string()],
    );
    assert_eq!(
        answers,
        vec![
            Ok(Addr::unchecked("alice")),
            Err(StdError::generic_err("Invalid input: human address too short")),
            Err(StdError::generic_err("Invalid input: address not normalized")),
            Ok(Addr::unchecked("carol")),
        ]
    );
    assert!(validate_each(deps.as_ref(), &vec![]).is_empty());
}

#[test]
fn add_user_keeps_the_text_the_chain_accepted() {
    let deps = mock_dependencies(&[]);
    let mut state = created_by("creator");
    let res =
        add_user(deps.as_ref(), &mut state, &Addr::unchecked("creator"), WASM_USER.to_string())
            .unwrap();
    assert_eq!(res.inner.attributes, attributes(&[("method", "add_user")]));
    assert_eq!(users_of(&state), vec![WASM_USER.to_string()]);
    assert_eq!(state.users, vec![Addr::unchecked(WASM_USER)]);
    assert_eq!(state.owner, Addr::unchecked("creator"));
}

#[test]
fn add_user_twice_lists_the_address_twice() {
    let deps = mock_dependencies(&[]);
    let owner = Addr::unchecked("creator");
    let mut state = created_by("creator");
    add_user(deps.as_ref(), &mut state, &owner, "alice".to_string()).unwrap();
    add_user(deps.as_ref(), &mut state, &owner, "alice".to_string()).unwrap();
    assert_eq!(users_of(&state), vec!["alice".to_string(), "alice".to_string()]);
}

#[test]
fn add_user_by_a_stranger_is_unauthorized() {
    let deps = mock_dependencies(&[]);
    let mut state = created_by("creator");
    let before = state.clone();
    let err = add_user(deps.as_ref(), &mut state, &Addr::unchecked("anyone"), "alice".to_string())
        .unwrap_err();
    assert_eq!(err, ContractError::Unauthorized {});
    assert_eq!(state, before);
}

#[test]
fn add_user_hands_on_the_error_of_the_chain() {
    let deps = mock_dependencies(&[]);
    let mut state = created_by("creator");
    let before = state.clone();
    // the mock chain takes no address of fewer than three characters
    let err = add_user(deps.as_ref(), &mut state, &Addr::unchecked("creator"), "x".to_string())
        .unwrap_err();
    assert_eq!(
        err,
        ContractError::Std(StdError::generic_err("Invalid input: human address too short"))
    );
    assert_eq!(state, before);
}

#[test]
fn add_user_validates_before_it_asks_who_calls() {
    let deps = mock_dependencies(&[]);
    let mut state = created_by("creator");
    let err = add_user(deps.as_ref(), &mut state, &Addr::unchecked("anyone"), "x".to_string())
        .unwrap_err();
    assert!(matches!(err, ContractError::Std(_)));
}

#[test]
fn add_user_refuses_an_address_that_is_not_normalized() {
    let deps = mock_dependencies(&[]);
    let mut state = created_by("creator");
    let err = add_user(deps.as_ref(), &mut state, &Addr::unchecked("creator"), "Alice".to_string())
        .unwrap_err();
    assert_eq!(
        err,
        ContractError::Std(StdError::generic_err("Invalid input: address not normalized"))
    );
    assert!(users_of(&state).is_empty());
}

#[test]
fn remove_user_takes_the_first_occurrence_only() {
    let deps = mock_dependencies(&[]);
    let owner = Addr::unchecked("creator");
    let mut state = created_by("creator");
    for user in ["alice", "bob", "alice", "carol"] {
        add_user(deps.as_ref(), &mut state, &owner, user.to_string()).unwrap();
    }
    let res = remove_user(deps.as_ref(), &mut state, &owner, "alice".to_string()).unwrap();
    assert_eq!(res.inner.attributes, attributes(&[("method", "remove_user")]));
    assert_eq!(
        users_of(&state),
        vec!["bob".to_string(), "alice".to_string(), "carol".to_string()]
    );
    remove_user(deps.as_ref(), &mut state, &owner, "alice".to_string()).unwrap();
    assert_eq!(users_of(&state), vec!["bob".to_string(), "carol".to_string()]);
}

#[test]
fn remove_user_of_an_absent_address_is_not_found() {
    let deps = mock_dependencies(&[]);
    let owner = Addr::unchecked("creator");
    let mut state = created_by("creator");
    add_user(deps.as_ref(), &mut state, &owner, "alice".to_string()).unwrap();
    let before = state.clone();
    let err = remove_user(deps.as_ref(), &mut state, &owner, "bob".to_string()).unwrap_err();
    assert_eq!(err, ContractError::NotFound { user: "bob".to_string() });
    assert_eq!(state, before);
}

#[test]
fn remove_user_by_a_stranger_is_unauthorized() {
    let deps = mock_dependencies(&[]);
    let owner = Addr::unchecked("creator");
    let mut state = created_by("creator");
    add_user(deps.as_ref(), &mut state, &owner, "alice".to_string()).unwrap();
    let before = state.clone();
    let stranger = Addr::unchecked("anyone");
    let err = remove_user(deps.as_ref(), &mut state, &stranger, "alice".to_string()).unwrap_err();
    assert_eq!(err, ContractError::Unauthorized {});
    // unauthorized comes before not found
    let err = remove_user(deps.as_ref(), &mut state, &stranger, "bob".to_string()).unwrap_err();
    assert_eq!(err, ContractError::Unauthorized {});
    assert_eq!(state, before);
}

#[test]
fn remove_user_hands_on_the_error_of_the_chain() {
    let deps = mock_dependencies(&[]);
    let mut state = created_by("creator");
    let err = remove_user(deps.as_ref(), &mut state, &Addr::unchecked("creator"), "x".to_string())
        .unwrap_err();
    assert!(matches!(err, ContractError::Std(_)));
}

#[test]
fn update_user_adds_then_removes() {
    let deps = mock_dependencies(&[]);
    let owner = Addr::unchecked("creator");
    let mut state = created_by("creator");
    let res = update_user(
        deps.as_ref(),
        &mut state,
        &owner,
        vec!["alice".to_string(), "bob".to_string(), "alice".to_string()],
        vec!["alice".to_string()],
    )
    .unwrap();
    assert_eq!(res.inner.attributes, attributes(&[("method", "update_users")]));
    assert_eq!(users_of(&state), vec!["bob".to_string(), "alice".to_string()]);
}

#[test]
fn update_user_can_remove_what_it_has_just_added() {
    let deps = mock_dependencies(&[]);
    let mut state = created_by("creator");
    update_user(
        deps.as_ref(),
        &mut state,
        &Addr::unchecked("creator"),
        vec!["alice".to_string()],
        vec!["alice".to_string()],
    )
    .unwrap();
    assert!(users_of(&state).is_empty());
}

#[test]
fn update_user_is_open_to_every_caller() {
    let deps = mock_dependencies(&[]);
    let mut state = created_by("creator");
    update_user(
        deps.as_ref(),
        &mut state,
        &Addr::unchecked("anyone"),
        vec!["alice".to_string()],
        vec![],
    )
    .unwrap();
    assert_eq!(users_of(&state), vec!["alice".to_string()]);
    assert_eq!(state.owner, Addr::unchecked("creator"));
}

#[test]
fn update_user_that_fails_changes_nothing() {
    let deps = mock_dependencies(&[]);
    let owner = Addr::unchecked("creator");
    let mut state = created_by("creator");
    add_user(deps.as_ref(), &mut state, &owner, "alice".to_string()).unwrap();
    let before = state.clone();

    let err = update_user(
        deps.as_ref(),
        &mut state,
        &owner,
        vec!["bob".to_string()],
        vec!["alice".to_string(), "carol".to_string()],
    )
    .unwrap_err();
    assert_eq!(err, ContractError::NotFound { user: "carol".to_string() });
    assert_eq!(state, before);

    let err = update_user(
        deps.as_ref(),
        &mut state,
        &owner,
        vec!["bob".to_string(), "x".to_string()],
        vec![],
    )
    .unwrap_err();
    assert!(matches!(err, ContractError::Std(_)));
    assert_eq!(state, before);
}

#[test]
fn update_user_reports_the_first_failure_in_order() {
    let deps = mock_dependencies(&[]);
    let owner = Addr::unchecked("creator");
    let mut state = created_by("creator");
    // an address to add that the chain refuses comes before anything to remove
    let err = update_user(
        deps.as_ref(),
        &mut state,
        &owner,
        vec!["x".to_string()],
        vec!["nobody".to_string()],
    )
    .unwrap_err();
    assert!(matches!(err, ContractError::Std(_)));
    // among the addresses to remove, the earlier failure is reported
    let err = update_user(
        deps.as_ref(),
        &mut state,
        &owner,
        vec![],
        vec!["nobody".to_string(), "x".to_string()],
    )
    .unwrap_err();
    assert_eq!(err, ContractError::NotFound { user: "nobody".to_string() });
    let err = update_user(
        deps.as_ref(),
        &mut state,
        &owner,
        vec![],
        vec!["x".to_string(), "nobody".to_string()],
    )
    .unwrap_err();
    assert!(matches!(err, ContractError::Std(_)));
}

#[test]
fn update_user_with_nothing_to_do_succeeds() {
    let deps = mock_dependencies(&[]);
    let mut state = created_by("creator");
    let before = state.clone();
    update_user(deps.as_ref(), &mut state, &Addr::unchecked("anyone"), vec![], vec![]).unwrap();
    assert_eq!(state, before);
}

#[test]
fn execute_dispatches_each_message() {
    let deps = mock_dependencies(&[]);
    let owner = Addr::unchecked("creator");
    let mut state = created_by("creator");

    let res = execute(
        deps.as_ref(),
        &mut state,
        &owner,
        ExecuteMsg::AddUser { user: "alice".to_string() },
    )
    .unwrap();
    assert_eq!(res.inner.attributes, attributes(&[("method", "add_user")]));
    assert_eq!(users_of(&state), vec!["alice".to_string()]);

    let res = execute(
        deps.as_ref(),
        &mut state,
        &owner,
        ExecuteMsg::UpdateUsers { add: vec!["bob".to_string()], remove: vec!["alice".to_string()] },
    )
    .unwrap();
    assert_eq!(res.inner.attributes, attributes(&[("method", "update_users")]));
    assert_eq!(users_of(&state), vec!["bob".to_string()]);

    let res = execute(
        deps.as_ref(),
        &mut state,
        &owner,
        ExecuteMsg::RemoveUser { user: "bob".to_string() },
    )
    .unwrap();
    assert_eq!(res.inner.attributes, attributes(&[("method", "remove_user")]));
    assert!(users_of(&state).is_empty());

    let err = execute(
        deps.as_ref(),
        &mut state,
        &Addr::unchecked("anyone"),
        ExecuteMsg::AddUser { user: "alice".to_string() },
    )
    .unwrap_err();
    assert_eq!(err, ContractError::Unauthorized {});
}

#[test]
fn query_user_tells_members_from_others() {
    let deps = mock_dependencies(&[]);
    let owner = Addr::unchecked("creator");
    let mut state = created_by("creator");
    add_user(deps.as_ref(), &mut state, &owner, "alice".to_string()).unwrap();
    assert_eq!(
        query_user(deps.as_ref(), &state, "alice".to_string()).unwrap(),
        ExistsResponse { exists: true }
    );
    assert_eq!(
        query_user(deps.as_ref(), &state, "bob".to_string()).unwrap(),
        ExistsResponse { exists: false }
    );
    // the owner is not a member
    assert_eq!(
        query_user(deps.as_ref(), &state, "creator".to_string()).unwrap(),
        ExistsResponse { exists: false }
    );
}

#[test]
fn query_user_hands_on_the_error_of_the_chain() {
    let deps = mock_dependencies(&[]);
    let state = created_by("creator");
    let err = query_user(deps.as_ref(), &state, "x".to_string()).unwrap_err();
    assert_eq!(err, StdError::generic_err("Invalid input: human address too short"));
}

#[test]
fn query_answers_each_question() {
    let deps = mock_dependencies(&[]);
    let owner = Addr::unchecked("creator");
    let mut state = created_by("creator");
    add_user(deps.as_ref(), &mut state, &owner, "alice".to_string()).unwrap();
    add_user(deps.as_ref(), &mut state, &owner, "bob".to_string()).unwrap();
    assert_eq!(
        query(deps.as_ref(), &state, QueryMsg::Users {}).unwrap(),
        QueryResponse::Users(UsersResponse { users: vec!["alice".to_string(), "bob".to_string()] })
    );
    assert_eq!(
        query(deps.as_ref(), &state, QueryMsg::User { user: "bob".to_string() }).unwrap(),
        QueryResponse::User(ExistsResponse { exists: true })
    );
    assert_eq!(
        query(deps.as_ref(), &state, QueryMsg::User { user: "carol".to_string() }).unwrap(),
        QueryResponse::User(ExistsResponse { exists: false })
    );
    assert!(query(deps.as_ref(), &state, QueryMsg::User { user: "x".to_string() }).is_err());
}
