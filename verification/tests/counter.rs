use counter_contract::contract::{execute, get_count, increment, instantiate, query, reset, QueryAnswer};
use counter_contract::error::ContractError;
use counter_contract::msg::{BlockInfo, Coin, ExecuteMsg, GetCountResp, InstantiateMsg, MessageInfo, QueryMsg, Response};
use counter_contract::state::Store;

fn info(sender: &str) -> MessageInfo {
    MessageInfo { sender: sender.to_string(), funds: Vec::new() }
}

fn block() -> BlockInfo {
    BlockInfo { height: 10, time: 1_000 }
}

fn attrs(r: &Response) -> Vec<(&str, &str)> {
    r.attributes.iter().map(|a| (a.key.as_str(), a.value.as_str())).collect()
}

#[test]
fn instantiate_then_get_count() {
    let mut store = Store::new();
    let resp = instantiate(&mut store, &info("alice"), &InstantiateMsg { count: 7 }).unwrap();
    assert_eq!(
        attrs(&resp),
        vec![("method", "instantiate"), ("owner", "alice"), ("funds", "none"), ("count", "7")]
    );
    assert_eq!(get_count(&store).unwrap(), GetCountResp { count: 7 });
}

#[test]
fn increments_accumulate() {
    let mut store = Store::new();
    instantiate(&mut store, &info("alice"), &InstantiateMsg { count: 5 }).unwrap();
    increment(&mut store, &info("bob")).unwrap();
    increment(&mut store, &info("carol")).unwrap();
    increment(&mut store, &info("alice")).unwrap();
    assert_eq!(get_count(&store).unwrap(), GetCountResp { count: 8 });
}

#[test]
fn reset_then_get_count_any_caller() {
    let mut store = Store::new();
    instantiate(&mut store, &info("alice"), &InstantiateMsg { count: 5 }).unwrap();
    let resp = reset(&mut store, &info("mallory"), -3).unwrap();
    assert_eq!(
        attrs(&resp),
        vec![("method", "reset"), ("caller", "mallory"), ("count", "-3")]
    );
    assert_eq!(get_count(&store).unwrap(), GetCountResp { count: -3 });
}

#[test]
fn scenario_two_increments() {
    let mut store = Store::new();
    instantiate(&mut store, &info("sender"), &InstantiateMsg { count: 0 }).unwrap();
    execute(&mut store, &block(), &info("sender"), ExecuteMsg::Increment {}).unwrap();
    let second = execute(&mut store, &block(), &info("sender"), ExecuteMsg::Increment {}).unwrap();
    assert_eq!(
        attrs(&second),
        vec![("method", "increment"), ("owner", "sender"), ("funds", "none"), ("count", "2")]
    );
    assert_eq!(get_count(&store).unwrap(), GetCountResp { count: 2 });
}

#[test]
fn scenario_reset_negative() {
    let mut store = Store::new();
    instantiate(&mut store, &info("alice"), &InstantiateMsg { count: 5 }).unwrap();
    execute(&mut store, &block(), &info("alice"), ExecuteMsg::Reset { count: -3 }).unwrap();
    assert_eq!(get_count(&store).unwrap(), GetCountResp { count: -3 });
}

#[test]
fn get_count_before_instantiate_fails() {
    let store = Store::new();
    let got = get_count(&store);
    assert!(matches!(got, Err(ContractError::NotFound)));
}

#[test]
fn increment_before_instantiate_fails() {
    let mut store = Store::new();
    let got = increment(&mut store, &info("alice"));
    assert!(matches!(got, Err(ContractError::NotFound)));
}

#[test]
fn instantiate_twice_refused() {
    let mut store = Store::new();
    instantiate(&mut store, &info("alice"), &InstantiateMsg { count: 1 }).unwrap();
    let second = instantiate(&mut store, &info("bob"), &InstantiateMsg { count: 9 });
    assert!(matches!(second, Err(ContractError::AlreadyInitialized)));
    assert_eq!(get_count(&store).unwrap(), GetCountResp { count: 1 });
}

#[test]
fn reset_works_on_fresh_store() {
    let mut store = Store::new();
    reset(&mut store, &info("alice"), 4).unwrap();
    assert_eq!(get_count(&store).unwrap(), GetCountResp { count: 4 });
}

#[test]
fn funds_attribute_lists_coins() {
    let mut store = Store::new();
    let with_funds = MessageInfo {
        sender: "alice".to_string(),
        funds: vec![
            Coin { denom: "uatom".to_string(), amount: 100 },
            Coin { denom: "unibi".to_string(), amount: 25 },
        ],
    };
    let resp = instantiate(&mut store, &with_funds, &InstantiateMsg { count: 0 }).unwrap();
    assert_eq!(attrs(&resp)[2], ("funds", "uatom:100, unibi:25"));
}

#[test]
fn funds_attribute_single_coin() {
    let mut store = Store::new();
    instantiate(&mut store, &info("alice"), &InstantiateMsg { count: 0 }).unwrap();
    let with_funds = MessageInfo {
        sender: "bob".to_string(),
        funds: vec![Coin { denom: "unibi".to_string(), amount: 7 }],
    };
    let resp = increment(&mut store, &with_funds).unwrap();
    assert_eq!(
        attrs(&resp),
        vec![("method", "increment"), ("owner", "bob"), ("funds", "unibi:7"), ("count", "1")]
    );
}

#[test]
fn query_routes_count_and_greeting() {
    let mut store = Store::new();
    instantiate(&mut store, &info("alice"), &InstantiateMsg { count: 3 }).unwrap();
    match query(&store, QueryMsg::GetCount {}).unwrap() {
        QueryAnswer::Count(c) => assert_eq!(c, GetCountResp { count: 3 }),
        other => panic!("unexpected answer: {:?}", other),
    }
    match query(&store, QueryMsg::HelloWorld {}).unwrap() {
        QueryAnswer::Hello(h) => assert_eq!(h.greeting, "Hello Nibiru Developers"),
        other => panic!("unexpected answer: {:?}", other),
    }
}

#[test]
fn query_count_before_instantiate_fails() {
    let store = Store::new();
    let got = query(&store, QueryMsg::GetCount {});
    assert!(matches!(got, Err(ContractError::NotFound)));
}
