use rewards_manager::contract::{
    execute, execute_collect_and_convert, execute_update_percentage, instantiate, query,
    query_state,
};
use rewards_manager::error::ContractError;
use rewards_manager::msg::{Env, ExecuteMsg, InstantiateMsg, MessageInfo, QueryMsg};
use rewards_manager::response::{Attribute, Response};
use rewards_manager::state::Storage;

fn env() -> Env {
    Env { block_height: 12_345, block_time_seconds: 1_700_000_000 }
}

fn info(sender: &str) -> MessageInfo {
    MessageInfo { sender: sender.to_string() }
}

fn init_with(storage: &mut Storage, sender: &str, fraction: u128) -> Response {
    instantiate(storage, &env(), &info(sender), InstantiateMsg { convert_fraction: fraction })
        .unwrap()
}

fn action_attr(value: &str) -> Vec<Attribute> {
    vec![Attribute { key: "action".to_string(), value: value.to_string() }]
}

#[test]
fn init_then_query_returns_seeded_state() {
    let mut storage = Storage::new();
    let resp = init_with(&mut storage, "alice", 50);
    assert!(resp.attributes.is_empty());
    let state = query(&storage, &env(), QueryMsg::GetState {}).unwrap();
    assert_eq!(state.convert_fraction, 50);
    assert_eq!(state.owner, "alice");
}

#[test]
fn owner_update_changes_fraction_and_emits_attribute() {
    let mut storage = Storage::new();
    init_with(&mut storage, "alice", 50);
    let resp = execute(
        &mut storage,
        &env(),
        &info("alice"),
        ExecuteMsg::UpdateConvertFraction { percentage: 75 },
    )
    .unwrap();
    assert_eq!(resp.attributes, action_attr("update_percentage"));
    let state = query_state(&storage).unwrap();
    assert_eq!(state.convert_fraction, 75);
    assert_eq!(state.owner, "alice");
}

#[test]
fn stranger_update_is_unauthorized_and_ineffective() {
    let mut storage = Storage::new();
    init_with(&mut storage, "alice", 50);
    let err = execute(
        &mut storage,
        &env(),
        &info("bob"),
        ExecuteMsg::UpdateConvertFraction { percentage: 10 },
    )
    .unwrap_err();
    assert_eq!(err, ContractError::Unauthorized);
    let state = query_state(&storage).unwrap();
    assert_eq!(state.convert_fraction, 50);
    assert_eq!(state.owner, "alice");
}

#[test]
fn owner_collect_succeeds_with_attribute_and_no_state_change() {
    let mut storage = Storage::new();
    init_with(&mut storage, "alice", 50);
    let before = query_state(&storage).unwrap();
    let resp =
        execute(&mut storage, &env(), &info("alice"), ExecuteMsg::CollectAndConvert {}).unwrap();
    assert_eq!(resp.attributes, action_attr("collect_and_convert"));
    let after = query_state(&storage).unwrap();
    assert_eq!(before, after);
}

#[test]
fn stranger_collect_is_unauthorized() {
    let mut storage = Storage::new();
    init_with(&mut storage, "alice", 50);
    let err = execute(&mut storage, &env(), &info("bob"), ExecuteMsg::CollectAndConvert {})
        .unwrap_err();
    assert_eq!(err, ContractError::Unauthorized);
    let state = query_state(&storage).unwrap();
    assert_eq!(state.convert_fraction, 50);
    assert_eq!(state.owner, "alice");
}

#[test]
fn max_fraction_round_trips_at_full_width() {
    let max: u128 = 340_282_366_920_938_463_463_374_607_431_768_211_455;
    let mut storage = Storage::new();
    init_with(&mut storage, "alice", max);
    let state = query(&storage, &env(), QueryMsg::GetState {}).unwrap();
    assert_eq!(state.convert_fraction, max);
}

#[test]
fn owner_survives_any_update_sequence() {
    let mut storage = Storage::new();
    init_with(&mut storage, "alice", 1);
    let callers = ["alice", "bob", "alice", "mallory", "alice"];
    for (i, caller) in callers.iter().enumerate() {
        let _ = execute(
            &mut storage,
            &env(),
            &info(caller),
            ExecuteMsg::UpdateConvertFraction { percentage: i as u128 },
        );
        let _ = execute(&mut storage, &env(), &info(caller), ExecuteMsg::CollectAndConvert {});
        assert_eq!(query_state(&storage).unwrap().owner, "alice");
    }
}

#[test]
fn update_before_init_is_not_found() {
    let mut storage = Storage::new();
    let err = execute_update_percentage(&mut storage, &info("alice"), 5).unwrap_err();
    assert_eq!(err, ContractError::NotFound { entity: "State".to_string() });
}

#[test]
fn collect_before_init_is_not_found() {
    let mut storage = Storage::new();
    let err = execute_collect_and_convert(&mut storage, &env(), &info("alice")).unwrap_err();
    assert_eq!(err, ContractError::NotFound { entity: "State".to_string() });
}

#[test]
fn query_before_init_is_not_found() {
    let storage = Storage::new();
    let err = query(&storage, &env(), QueryMsg::GetState {}).unwrap_err();
    assert_eq!(err, ContractError::NotFound { entity: "State".to_string() });
}

#[test]
fn repeated_queries_observe_identical_state() {
    let mut storage = Storage::new();
    init_with(&mut storage, "alice", 42);
    let first = query_state(&storage).unwrap();
    let second = query_state(&storage).unwrap();
    let third = query(&storage, &env(), QueryMsg::GetState {}).unwrap();
    assert_eq!(first, second);
    assert_eq!(first, third);
}

#[test]
fn update_accepts_zero_and_values_over_one_hundred() {
    let mut storage = Storage::new();
    init_with(&mut storage, "alice", 50);
    execute_update_percentage(&mut storage, &info("alice"), 0).unwrap();
    assert_eq!(query_state(&storage).unwrap().convert_fraction, 0);
    execute_update_percentage(&mut storage, &info("alice"), 1_000).unwrap();
    assert_eq!(query_state(&storage).unwrap().convert_fraction, 1_000);
}

#[test]
fn direct_handlers_match_dispatcher() {
    let mut dispatched = Storage::new();
    let mut direct = Storage::new();
    init_with(&mut dispatched, "alice", 7);
    init_with(&mut direct, "alice", 7);
    let via_execute = execute(
        &mut dispatched,
        &env(),
        &info("alice"),
        ExecuteMsg::UpdateConvertFraction { percentage: 9 },
    )
    .unwrap();
    let via_handler = execute_update_percentage(&mut direct, &info("alice"), 9).unwrap();
    assert_eq!(via_execute, via_handler);
    assert_eq!(query_state(&dispatched).unwrap(), query_state(&direct).unwrap());
}
