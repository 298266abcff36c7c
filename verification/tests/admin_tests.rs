use swap_contract::admin::{
    delete_route, save_config, set_route, update_config, verify_route_exists,
    verify_sender_is_admin, withdraw_support_funds, MarketDenoms,
};
use swap_contract::error::ContractError;
use swap_contract::msg::FeeRecipient;
use swap_contract::state::route_key;
use swap_contract::types::{Coin, Config, MarketId, SwapRoute};

const TEST_CONTRACT_ADDR: &str = "inj14hj2tavq8fpesdwxxcu44rty3hh90vhujaxlnz";
const TEST_USER_ADDR: &str = "inj1p7z8p649xspcey7wp5e4leqf7wa39kjjj6wja8";
const TEST_MARKET_ID_1: &str = "0xb0f0cd5dc3d18e0407b88a683871399d52483f06c757858a3a9f388877232b11";
const TEST_MARKET_ID_2: &str = "0xa815458b073ea303494e0c87f532483834f85622e1db1ad08e4ece2d360b248d";
const TEST_MARKET_ID_3: &str = "0x0fb00a5b353c58e92ec15e054473b04ecd80c6aec0294cd6702d45e53cdee791";

fn id(s: &str) -> MarketId {
    MarketId::unchecked(s.to_string())
}

/// The markets of the mocked chain: eth/usdt and inj/usdt; any other id is not found.
fn query_market(market_id: &MarketId) -> Option<MarketDenoms> {
    let base = if market_id.as_str() == TEST_MARKET_ID_1 {
        "eth"
    } else if market_id.as_str() == TEST_MARKET_ID_2 {
        "inj"
    } else {
        return None;
    };
    Some(MarketDenoms { quote_denom: "usdt".to_string(), base_denom: base.to_string() })
}

/// Sets a route as the contract does: checks the request, then looks the markets up
/// in order (stopping at the first one not found) and checks the denominations.
fn set_route_with_markets(
    config: &Config,
    sender: &str,
    source_denom: &str,
    target_denom: &str,
    route: Vec<MarketId>,
) -> Result<SwapRoute, ContractError> {
    let route = set_route(config, sender, source_denom.to_string(), target_denom.to_string(), route)?;
    let mut markets = Vec::new();
    let mut missing = false;
    for step in route.steps.iter() {
        if missing {
            markets.push(None);
            continue;
        }
        let market = query_market(step);
        missing = market.is_none();
        markets.push(market);
    }
    verify_route_exists(&route, &markets)?;
    Ok(route)
}

fn custom_message(e: ContractError) -> String {
    match e {
        ContractError::CustomError { val } => val,
        other => format!("{:?}", other),
    }
}

fn admin_config() -> Config {
    Config { fee_recipient: TEST_USER_ADDR.to_string(), admin: TEST_USER_ADDR.to_string() }
}

#[test]
pub fn admin_can_update_config() {
    let config = Config { fee_recipient: TEST_CONTRACT_ADDR.to_string(), admin: TEST_USER_ADDR.to_string() };

    let (config, attributes) = update_config(
        config,
        TEST_CONTRACT_ADDR.to_string(),
        TEST_USER_ADDR,
        Some("new_admin".to_string()),
        Some(FeeRecipient::Address("new_fee_recipient".to_string())),
    )
    .unwrap();

    assert_eq!(config.admin, "new_admin", "admin was not updated");
    assert_eq!(config.fee_recipient, "new_fee_recipient", "fee_recipient was not updated");
    attributes.iter().find(|a| a.key == "admin" && a.value == "new_admin").expect("admin attribute expected");
    attributes
        .iter()
        .find(|a| a.key == "fee_recipient" && a.value == "new_fee_recipient")
        .expect("fee_recipient attribute expected");
}

#[test]
pub fn non_admin_cannot_update_config() {
    let config = Config { fee_recipient: TEST_CONTRACT_ADDR.to_string(), admin: TEST_USER_ADDR.to_string() };

    let res = update_config(
        config,
        TEST_CONTRACT_ADDR.to_string(),
        "non_admin",
        Some("new_admin".to_string()),
        Some(FeeRecipient::Address("new_fee_recipient".to_string())),
    );

    assert!(res.is_err(), "expected error on non-admin update config");
}

#[test]
fn owner_can_set_valid_route() {
    let route = vec![id(TEST_MARKET_ID_1), id(TEST_MARKET_ID_2)];
    let stored = set_route_with_markets(&admin_config(), TEST_USER_ADDR, "eth", "inj", route.clone()).expect("result was not ok");
    assert_eq!(stored.steps, route, "route was not set correctly");
    assert_eq!(stored.source_denom, "eth", "route was not set correctly");
    assert_eq!(stored.target_denom, "inj", "route was not set correctly");
}

#[test]
fn owner_cannot_set_route_for_markets_using_target_denom_not_found_on_target_market() {
    let result = set_route_with_markets(&admin_config(), TEST_USER_ADDR, "eth", "atom", vec![id(TEST_MARKET_ID_1), id(TEST_MARKET_ID_2)]);
    assert!(result.is_err(), "result was ok");
    assert!(custom_message(result.unwrap_err()).contains("Target denom not found in last market"), "wrong error message");
}

#[test]
fn owner_cannot_set_route_for_markets_using_source_denom_not_present_on_source_market() {
    let result = set_route_with_markets(&admin_config(), TEST_USER_ADDR, "atom", "eth", vec![id(TEST_MARKET_ID_1), id(TEST_MARKET_ID_2)]);
    assert!(result.is_err(), "result was ok");
    assert!(custom_message(result.unwrap_err()).contains("Source denom not found in first market"), "wrong error message");
}

#[test]
fn owner_can_set_route_single_step_route() {
    let route = vec![id(TEST_MARKET_ID_1)];
    let stored = set_route_with_markets(&admin_config(), TEST_USER_ADDR, "eth", "usdt", route.clone()).expect("result was not ok");
    assert_eq!(stored.steps, route, "route was not stored correctly");
    assert_eq!(stored.source_denom, "eth", "source_denom was not stored correctly");
    assert_eq!(stored.target_denom, "usdt", "target_denom was not stored correctly");
}

#[test]
fn owner_can_set_route_single_step_route_with_reverted_denoms() {
    let route = vec![id(TEST_MARKET_ID_1)];
    let stored = set_route_with_markets(&admin_config(), TEST_USER_ADDR, "usdt", "eth", route.clone()).expect("result was not ok");
    assert_eq!(stored.steps, route, "route was not stored correctly");
    assert_eq!(stored.source_denom, "usdt", "source_denom was not stored correctly");
    assert_eq!(stored.target_denom, "eth", "target_denom was not stored correctly");
}

#[test]
fn it_returns_error_when_setting_route_for_the_same_denom_as_target_and_source() {
    let result = set_route_with_markets(&admin_config(), TEST_USER_ADDR, "eth", "eth", vec![id(TEST_MARKET_ID_1), id(TEST_MARKET_ID_2)]);
    assert!(result.is_err(), "Could set a route with the same denom being source and target!");
    assert!(
        custom_message(result.unwrap_err()).contains("Cannot set a route with the same denom being source and target"),
        "wrong error message"
    );
}

#[test]
fn it_returns_error_when_setting_route_with_nonexistent_market_id() {
    let result = set_route_with_markets(&admin_config(), TEST_USER_ADDR, "eth", "usdt", vec![id(TEST_MARKET_ID_1), id(TEST_MARKET_ID_3)]);
    assert!(result.is_err(), "Could set a route for non-existent market");
    assert!(custom_message(result.unwrap_err()).contains(&format!("Market {TEST_MARKET_ID_3} not found")), "wrong error message");
}

#[test]
fn it_returns_error_when_setting_route_with_no_market_ids() {
    let result = set_route_with_markets(&admin_config(), TEST_USER_ADDR, "eth", "usdt", vec![]);
    assert!(result.is_err(), "Could set a route without any steps");
    assert!(custom_message(result.unwrap_err()).contains("Route must have at least one step"), "wrong error message");
}

#[test]
fn it_returns_error_when_setting_route_with_duplicated_market_ids() {
    let result = set_route_with_markets(
        &admin_config(),
        TEST_USER_ADDR,
        "eth",
        "usdt",
        vec![id(TEST_MARKET_ID_1), id(TEST_MARKET_ID_2), id(TEST_MARKET_ID_1)],
    );
    assert!(result.is_err(), "Could set a route that begins and ends with the same market");
    assert!(custom_message(result.unwrap_err()).contains("Route cannot have duplicate steps"), "wrong error message");
}

#[test]
fn it_returns_error_if_non_admin_tries_to_set_route() {
    let result = set_route_with_markets(&admin_config(), TEST_CONTRACT_ADDR, "eth", "inj", vec![id(TEST_MARKET_ID_1), id(TEST_MARKET_ID_2)]);
    assert!(result.is_err(), "expected error");
    assert!(matches!(result.unwrap_err(), ContractError::Unauthorized {}), "wrong error message");
}

#[test]
fn it_allows_admint_to_delete_existing_route() {
    let stored = set_route_with_markets(&admin_config(), TEST_USER_ADDR, "eth", "inj", vec![id(TEST_MARKET_ID_1), id(TEST_MARKET_ID_2)]);
    assert!(stored.is_ok(), "expected success on set");
    let key = delete_route(&admin_config(), TEST_USER_ADDR, "eth", "inj").expect("expected success on delete");
    assert_eq!(key, route_key("eth", "inj"));
}

#[test]
fn it_doesnt_fail_if_admin_deletes_non_existent_route() {
    let stored = set_route_with_markets(&admin_config(), TEST_USER_ADDR, "eth", "inj", vec![id(TEST_MARKET_ID_1), id(TEST_MARKET_ID_2)]);
    assert!(stored.is_ok(), "expected success on set");
    let key = delete_route(&admin_config(), TEST_USER_ADDR, "mietek", "eth").expect("expected success on delete");
    assert_ne!(key, route_key("eth", "inj"), "route was deleted");
}

#[test]
fn it_returns_error_if_non_admin_tries_to_delete_route() {
    let stored = set_route_with_markets(&admin_config(), TEST_USER_ADDR, "eth", "inj", vec![id(TEST_MARKET_ID_1), id(TEST_MARKET_ID_2)]);
    assert!(stored.is_ok(), "expected success on set");
    let result = delete_route(&admin_config(), TEST_CONTRACT_ADDR, "eth", "inj");
    assert!(matches!(result, Err(ContractError::Unauthorized {})), "expected error on delete");
}

#[test]
fn instantiation_resolves_the_swap_contract_as_fee_recipient() {
    let config = save_config(TEST_CONTRACT_ADDR.to_string(), TEST_USER_ADDR.to_string(), FeeRecipient::SwapContract).unwrap();
    assert_eq!(config.fee_recipient, TEST_CONTRACT_ADDR);
    assert_eq!(config.admin, TEST_USER_ADDR);
    let config = save_config(TEST_CONTRACT_ADDR.to_string(), TEST_USER_ADDR.to_string(), FeeRecipient::Address("fees".to_string())).unwrap();
    assert_eq!(config.fee_recipient, "fees");
}

#[test]
fn update_leaves_unnamed_fields_alone() {
    let config = Config { fee_recipient: "fees".to_string(), admin: TEST_USER_ADDR.to_string() };
    let (config, attributes) = update_config(config, TEST_CONTRACT_ADDR.to_string(), TEST_USER_ADDR, None, Some(FeeRecipient::SwapContract)).unwrap();
    assert_eq!(config.admin, TEST_USER_ADDR);
    assert_eq!(config.fee_recipient, TEST_CONTRACT_ADDR);
    assert_eq!(attributes.len(), 1);
    assert_eq!(attributes[0].key, "fee_recipient");
}

#[test]
fn only_the_admin_passes_the_admin_check() {
    assert!(verify_sender_is_admin(&admin_config(), TEST_USER_ADDR).is_ok());
    assert!(matches!(verify_sender_is_admin(&admin_config(), "someone"), Err(ContractError::Unauthorized {})));
}

#[test]
fn only_the_admin_withdraws_support_funds() {
    let coins = vec![Coin { denom: "usdt".to_string(), amount: 10 }];
    let send = withdraw_support_funds(&admin_config(), TEST_USER_ADDR, coins, "target".to_string()).unwrap();
    assert_eq!(send.to_address, "target");
    assert_eq!(send.amount.len(), 1);
    assert_eq!(send.amount[0].amount, 10);
    let coins = vec![Coin { denom: "usdt".to_string(), amount: 10 }];
    assert!(matches!(withdraw_support_funds(&admin_config(), "thief", coins, "target".to_string()), Err(ContractError::Unauthorized {})));
}

#[test]
fn missing_first_market_is_reported_before_any_denomination_check() {
    let route = SwapRoute { steps: vec![id(TEST_MARKET_ID_3)], source_denom: "x".to_string(), target_denom: "y".to_string() };
    let result = verify_route_exists(&route, &vec![None]);
    assert_eq!(custom_message(result.unwrap_err()), format!("Market {TEST_MARKET_ID_3} not found"));
}
