use cosmwasm_std::testing::{mock_dependencies, mock_env, mock_info, MockApi, MockStorage};
use cosmwasm_std::{attr, Addr, Response, Storage};
use zero_to_hero::contract::{
    instantiate, query, query_get_config, CONTRACT_NAME, CONTRACT_VERSION,
};
use zero_to_hero::error::ContractError;
use zero_to_hero::host::{Host, HostRef};
use zero_to_hero::msg::{InstantiateMsg, QueryMsg, QueryResponse};
use zero_to_hero::state::Config;

fn set_up(
    storage: &mut MockStorage,
    api: &MockApi,
    admin: &str,
) -> Result<Response, ContractError> {
    let mut host = Host { storage, api };
    let msg = InstantiateMsg { admin_address: admin.to_string() };
    instantiate(&mut host, mock_env(), mock_info("creator", &[]), msg)
}

#[test]
fn instantiate_stores_the_address_as_given() {
    let mut deps = mock_dependencies();
    let admin = "cosmos1qypqxpq9qcrsszg2pvxq6rs0zqg3yyc5lzv7xu";
    let resp = set_up(&mut deps.storage, &deps.api, admin).unwrap();
    assert_eq!(resp.attributes, vec![attr("action", "instantiate")]);
    assert!(resp.messages.is_empty());
    assert!(resp.events.is_empty());
    assert!(resp.data.is_none());

    let config = query_get_config(&HostRef { storage: &deps.storage }).unwrap();
    assert_eq!(config, Config { admin_address: Addr::unchecked(admin) });
    assert_eq!(config.admin_address.as_str(), admin);
}

#[test]
fn instantiate_registers_name_and_version() {
    let mut deps = mock_dependencies();
    set_up(&mut deps.storage, &deps.api, "addr1").unwrap();
    let version = cw2::get_contract_version(&deps.storage).unwrap();
    assert_eq!(version.contract, "crates.io:zero-to-hero");
    assert_eq!(version.version, "0.1.0");
    assert_eq!(CONTRACT_NAME, "crates.io:zero-to-hero");
    assert_eq!(CONTRACT_VERSION, "0.1.0");
}

#[test]
fn instantiate_refuses_a_short_address() {
    let mut deps = mock_dependencies();
    let err = set_up(&mut deps.storage, &deps.api, "ab").unwrap_err();
    let host_error = cosmwasm_std::Api::addr_validate(&deps.api, "ab").unwrap_err();
    assert_eq!(err, ContractError::InvalidAddress { reason: host_error.to_string() });
    assert_eq!(
        err.message(),
        "Generic error: Invalid input: human address too short \
         for this mock implementation (must be >= 3)."
    );
}

#[test]
fn instantiate_refuses_an_address_that_is_not_normalized() {
    let mut deps = mock_dependencies();
    let err = set_up(&mut deps.storage, &deps.api, "ADDR1").unwrap_err();
    assert_eq!(
        err,
        ContractError::InvalidAddress {
            reason: "Generic error: Invalid input: address not normalized".to_string()
        }
    );
}

#[test]
fn refused_address_leaves_nothing_stored() {
    let mut deps = mock_dependencies();
    let err = set_up(&mut deps.storage, &deps.api, "").unwrap_err();
    assert!(matches!(err, ContractError::InvalidAddress { .. }));
    assert!(deps.storage.get(b"config").is_none());
    assert!(deps.storage.get(b"contract_info").is_none());
    let asked = query(&HostRef { storage: &deps.storage }, mock_env(), QueryMsg::GetConfig {});
    assert!(matches!(asked, Err(ContractError::Generic { .. })));
    assert!(cw2::get_contract_version(&deps.storage).is_err());
}

#[test]
fn get_config_before_instantiate_fails() {
    let deps = mock_dependencies();
    let asked = query(&HostRef { storage: &deps.storage }, mock_env(), QueryMsg::GetConfig {});
    match asked {
        Err(ContractError::Generic { msg }) => assert!(msg.ends_with("not found"), "{}", msg),
        other => panic!("unexpected answer: {:?}", other),
    }
}

#[test]
fn get_config_reads_what_instantiate_wrote() {
    let mut deps = mock_dependencies();
    set_up(&mut deps.storage, &deps.api, "addr1").unwrap();
    let asked = query(&HostRef { storage: &deps.storage }, mock_env(), QueryMsg::GetConfig {});
    assert_eq!(
        asked,
        Ok(QueryResponse::Config(Config { admin_address: Addr::unchecked("addr1") }))
    );
    // The record is the address itself, kept by an `Item` under the key `config`.
    let stored: Addr = cw_storage_plus::Item::new("config").load(&deps.storage).unwrap();
    assert_eq!(stored, Addr::unchecked("addr1"));
}

#[test]
fn get_config_on_a_garbled_record_fails() {
    let mut deps = mock_dependencies();
    deps.storage.set(b"config", b"{not an address");
    let asked = query_get_config(&HostRef { storage: &deps.storage });
    assert!(matches!(asked, Err(ContractError::Generic { .. })));
}

#[test]
fn instantiate_leaves_the_polls_alone() {
    let mut deps = mock_dependencies();
    let polls = cw_storage_plus::Map::<String, (String, u64, u64)>::new("polls");
    polls.save(&mut deps.storage, "Q".to_string(), &("Q".to_string(), 4, 2)).unwrap();
    set_up(&mut deps.storage, &deps.api, "addr1").unwrap();
    assert_eq!(
        polls.load(&deps.storage, "Q".to_string()).unwrap(),
        ("Q".to_string(), 4, 2)
    );
}
