use cosmwasm_std::testing::{mock_dependencies, mock_env, mock_info};
use cosmwasm_std::{attr, Addr};
use zero_to_hero::contract::{execute, instantiate, query};
use zero_to_hero::host::{Host, HostRef};
use zero_to_hero::msg::{ExecuteMsg, GetPollResponse, InstantiateMsg, QueryMsg, QueryResponse};
use zero_to_hero::state::{Config, Poll};

#[test]
fn test_instantiate() {
    let mut deps = mock_dependencies();
    let env = mock_env();
    let info = mock_info("addr1", &[]);
    let msg = InstantiateMsg {
        admin_address: "addr1".to_string(),
    };
    let mut host = Host { storage: &mut deps.storage, api: &deps.api };
    let resp = instantiate(&mut host, env.clone(), info, msg).unwrap();
    assert_eq!(resp.attributes, vec![attr("action", "instantiate")]);

    let msg = QueryMsg::GetConfig {};
    let resp = query(&HostRef { storage: &deps.storage }, env, msg).unwrap();
    assert_eq!(
        resp,
        QueryResponse::Config(Config {
            admin_address: Addr::unchecked("addr1")
        })
    );
}

#[test]
fn test_create_poll() {
    let mut deps = mock_dependencies();
    let env = mock_env();
    let info = mock_info("addr1", &[]);
    let msg = InstantiateMsg {
        admin_address: "addr1".to_string(),
    };
    let mut host = Host { storage: &mut deps.storage, api: &deps.api };
    let _resp = instantiate(&mut host, env.clone(), info.clone(), msg).unwrap();
    let msg = ExecuteMsg::CreatePoll {
        question: "Do you love Spark IBC?".to_string(),
    };
    let resp = execute(&mut host, env.clone(), info.clone(), msg).unwrap();
    assert_eq!(resp.attributes, vec![attr("action", "create poll")]);

    let msg = QueryMsg::GetPoll {
        question: "Do you love Spark IBC?".to_string(),
    };
    let resp = query(&HostRef { storage: &deps.storage }, env.clone(), msg).unwrap();
    assert_eq!(
        resp,
        QueryResponse::Poll(GetPollResponse {
            poll: Some(Poll {
                question: "Do you love Spark IBC?".to_string(),
                yes_votes: 0,
                no_votes: 0
            })
        })
    );
    let msg = ExecuteMsg::CreatePoll {
        question: "Do you love Spark IBC?".to_string(),
    };
    let mut host = Host { storage: &mut deps.storage, api: &deps.api };
    let _resp = execute(&mut host, env, info, msg).unwrap_err();
}

#[test]
fn test_vote() {
    let mut deps = mock_dependencies();
    let env = mock_env();
    let info = mock_info("addr1", &[]);
    let msg = InstantiateMsg {
        admin_address: "addr1".to_string(),
    };
    let mut host = Host { storage: &mut deps.storage, api: &deps.api };
    let _resp = instantiate(&mut host, env.clone(), info.clone(), msg).unwrap();
    let msg = ExecuteMsg::CreatePoll {
        question: "Do you love Spark IBC?".to_string(),
    };
    let _resp = execute(&mut host, env.clone(), info.clone(), msg).unwrap();

    // A vote on a poll that exists is counted
    let msg = ExecuteMsg::Vote {
        question: "Do you love Spark IBC?".to_string(),
        choice: "yes".to_string(),
    };
    let resp = execute(&mut host, env.clone(), info.clone(), msg).unwrap();
    assert_eq!(resp.attributes, vec![attr("action", "vote")]);

    // The poll shows the vote
    let msg = QueryMsg::GetPoll {
        question: "Do you love Spark IBC?".to_string(),
    };
    let resp = query(&HostRef { storage: &deps.storage }, env.clone(), msg).unwrap();
    assert_eq!(
        resp,
        QueryResponse::Poll(GetPollResponse {
            poll: Some(Poll {
                question: "Do you love Spark IBC?".to_string(),
                yes_votes: 1,
                no_votes: 0
            })
        })
    );

    // A vote on a poll that does not exist fails
    let msg = ExecuteMsg::Vote {
        question: "Do you hate Spark IBC?".to_string(),
        choice: "yes".to_string(),
    };
    let mut host = Host { storage: &mut deps.storage, api: &deps.api };
    let _resp = execute(&mut host, env.clone(), info.clone(), msg).unwrap_err();

    // A vote on a poll that exists fails where the choice is not one of the two
    let msg = ExecuteMsg::Vote {
        question: "Do you love Spark IBC?".to_string(),
        choice: "test".to_string(),
    };
    let _resp = execute(&mut host, env, info, msg).unwrap_err();
}
