use named_record::contract::{execute, instantiate, query, try_update};
use named_record::error::ContractError;
use named_record::msg::{ExecuteMsg, GetNameResponse, InstantiateMsg, MessageInfo, QueryMsg};
use named_record::store::Store;

#[test]
fn proper_initialization() {
    let mut store = Store::new();

    let msg = InstantiateMsg {
        name: "Georges".to_string(),
    };
    let info = MessageInfo {
        sender: "georges".to_string(),
    };

    let res = instantiate(&mut store, info, msg).unwrap();
    assert_eq!(0, res.messages.len());

    let query_msg = QueryMsg::GetName {};
    let value: GetNameResponse = query(&store, query_msg).unwrap();
    assert_eq!("Georges".to_string(), value.name);
}

#[test]
fn proper_update() {
    let mut store = Store::new();
    let msg = InstantiateMsg {
        name: "Georges".to_string(),
    };
    let info = MessageInfo {
        sender: "georges".to_string(),
    };

    instantiate(&mut store, info, msg).unwrap();
    let ex_msg = ExecuteMsg::Update {
        new_name: "Chris".to_string(),
    };
    let info = MessageInfo {
        sender: "georges".to_string(),
    };
    let _ex = execute(&mut store, info, ex_msg).unwrap();

    let query_msg = QueryMsg::GetName {};
    let value: GetNameResponse = query(&store, query_msg).unwrap();
    assert_eq!("Chris".to_string(), value.name);
}

#[test]
#[should_panic]
fn bad_update() {
    let mut store = Store::new();
    let msg = InstantiateMsg {
        name: "Georges".to_string(),
    };
    let info = MessageInfo {
        sender: "georges".to_string(),
    };

    instantiate(&mut store, info, msg).unwrap();
    let ex_msg = ExecuteMsg::Update {
        new_name: "Chris".to_string(),
    };
    let info = MessageInfo {
        sender: "chris".to_string(),
    };
    let _ex = execute(&mut store, info, ex_msg).unwrap();

    let query_msg = QueryMsg::GetName {};
    let value: GetNameResponse = query(&store, query_msg).unwrap();
    assert_eq!("Chris".to_string(), value.name);
}

#[test]
fn unauthorized_update_is_rejected_and_keeps_the_name() {
    let mut store = Store::new();
    let info = MessageInfo {
        sender: "georges".to_string(),
    };
    let msg = InstantiateMsg {
        name: "Georges".to_string(),
    };
    instantiate(&mut store, info, msg).unwrap();

    let intruder = MessageInfo {
        sender: "chris".to_string(),
    };
    let res = execute(
        &mut store,
        intruder,
        ExecuteMsg::Update {
            new_name: "Chris".to_string(),
        },
    );
    assert_eq!(res.unwrap_err(), ContractError::Unauthorized);

    let value = query(&store, QueryMsg::GetName {}).unwrap();
    assert_eq!("Georges".to_string(), value.name);
}

#[test]
fn read_before_create_fails_with_not_found() {
    let store = Store::new();
    let res = query(&store, QueryMsg::GetName {});
    assert_eq!(res.unwrap_err(), ContractError::NotFound);
}

#[test]
fn update_before_create_fails_with_not_found() {
    let mut store = Store::new();
    let info = MessageInfo {
        sender: "georges".to_string(),
    };
    let res = try_update(&mut store, info, "Chris".to_string());
    assert_eq!(res.unwrap_err(), ContractError::NotFound);
}

#[test]
fn deployer_never_changes_under_updates() {
    let mut store = Store::new();
    let info = MessageInfo {
        sender: "georges".to_string(),
    };
    let msg = InstantiateMsg {
        name: "Georges".to_string(),
    };
    instantiate(&mut store, info, msg).unwrap();

    let names = ["Chris", "Anna", "Georges"];
    for name in names {
        let owner = MessageInfo {
            sender: "georges".to_string(),
        };
        try_update(&mut store, owner, name.to_string()).unwrap();
        let state = store.record().unwrap();
        assert_eq!("georges".to_string(), state.deployer);
    }

    let intruder = MessageInfo {
        sender: "anna".to_string(),
    };
    let res = try_update(&mut store, intruder, "Anna".to_string());
    assert_eq!(res.unwrap_err(), ContractError::Unauthorized);
    let state = store.record().unwrap();
    assert_eq!("georges".to_string(), state.deployer);
}

#[test]
fn instantiate_acknowledgement_attributes() {
    let mut store = Store::new();
    let info = MessageInfo {
        sender: "georges".to_string(),
    };
    let msg = InstantiateMsg {
        name: "Georges".to_string(),
    };
    let res = instantiate(&mut store, info, msg).unwrap();

    assert_eq!(0, res.messages.len());
    assert_eq!(3, res.attributes.len());
    assert_eq!("method".to_string(), res.attributes[0].key);
    assert_eq!("create".to_string(), res.attributes[0].value);
    assert_eq!("creator".to_string(), res.attributes[1].key);
    assert_eq!("georges".to_string(), res.attributes[1].value);
    assert_eq!("name".to_string(), res.attributes[2].key);
    assert_eq!("Georges".to_string(), res.attributes[2].value);
}

#[test]
fn update_acknowledgement_attributes() {
    let mut store = Store::new();
    let info = MessageInfo {
        sender: "georges".to_string(),
    };
    let msg = InstantiateMsg {
        name: "Georges".to_string(),
    };
    instantiate(&mut store, info, msg).unwrap();

    let owner = MessageInfo {
        sender: "georges".to_string(),
    };
    let res = try_update(&mut store, owner, "Chris".to_string()).unwrap();

    assert_eq!(0, res.messages.len());
    assert_eq!(2, res.attributes.len());
    assert_eq!("method".to_string(), res.attributes[0].key);
    assert_eq!("update".to_string(), res.attributes[0].value);
    assert_eq!("new_name".to_string(), res.attributes[1].key);
    assert_eq!("Chris".to_string(), res.attributes[1].value);
}

#[test]
fn version_tag_is_recorded_at_create() {
    let mut store = Store::new();
    assert!(store.version_tag().is_none());

    let info = MessageInfo {
        sender: "georges".to_string(),
    };
    let msg = InstantiateMsg {
        name: "Georges".to_string(),
    };
    instantiate(&mut store, info, msg).unwrap();

    let tag = store.version_tag().unwrap();
    assert_eq!("crates.io:smart-test".to_string(), tag.contract);
    assert_eq!("0.1.0".to_string(), tag.version);
}

#[test]
fn create_overwrites_a_prior_record() {
    let mut store = Store::new();
    let info = MessageInfo {
        sender: "georges".to_string(),
    };
    let msg = InstantiateMsg {
        name: "Georges".to_string(),
    };
    instantiate(&mut store, info, msg).unwrap();

    let second = MessageInfo {
        sender: "anna".to_string(),
    };
    let msg = InstantiateMsg {
        name: "Anna".to_string(),
    };
    instantiate(&mut store, second, msg).unwrap();

    let value = query(&store, QueryMsg::GetName {}).unwrap();
    assert_eq!("Anna".to_string(), value.name);

    let old_owner = MessageInfo {
        sender: "georges".to_string(),
    };
    let res = try_update(&mut store, old_owner, "Georges".to_string());
    assert_eq!(res.unwrap_err(), ContractError::Unauthorized);

    let new_owner = MessageInfo {
        sender: "anna".to_string(),
    };
    try_update(&mut store, new_owner, "Still Anna".to_string()).unwrap();
    let value = query(&store, QueryMsg::GetName {}).unwrap();
    assert_eq!("Still Anna".to_string(), value.name);
}

#[test]
fn end_to_end_scenario() {
    let mut store = Store::new();

    let info = MessageInfo {
        sender: "georges".to_string(),
    };
    let msg = InstantiateMsg {
        name: "Georges".to_string(),
    };
    instantiate(&mut store, info, msg).unwrap();

    let value = query(&store, QueryMsg::GetName {}).unwrap();
    assert_eq!("Georges".to_string(), value.name);

    let owner = MessageInfo {
        sender: "georges".to_string(),
    };
    let ex_msg = ExecuteMsg::Update {
        new_name: "Chris".to_string(),
    };
    execute(&mut store, owner, ex_msg).unwrap();

    let value = query(&store, QueryMsg::GetName {}).unwrap();
    assert_eq!("Chris".to_string(), value.name);

    let intruder = MessageInfo {
        sender: "chris".to_string(),
    };
    let ex_msg = ExecuteMsg::Update {
        new_name: "Hacked".to_string(),
    };
    let res = execute(&mut store, intruder, ex_msg);
    assert_eq!(res.unwrap_err(), ContractError::Unauthorized);

    let value = query(&store, QueryMsg::GetName {}).unwrap();
    assert_eq!("Chris".to_string(), value.name);
}
