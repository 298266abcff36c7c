use swap_contract::state::route_key;
use swap_contract::types::{Config, MarketId, SwapRoute};

#[test]
fn route_key_orders_the_denominations() {
    assert_eq!(route_key("eth", "inj"), ("eth".to_string(), "inj".to_string()));
    assert_eq!(route_key("inj", "eth"), ("eth".to_string(), "inj".to_string()));
}

#[test]
fn route_key_is_the_same_from_either_end() {
    for (a, b) in [("usdt", "atom"), ("a", "ab"), ("Z", "a"), ("é", "e"), ("x", "x")] {
        assert_eq!(route_key(a, b), route_key(b, a));
    }
}

#[test]
fn route_key_compares_by_code_point() {
    assert_eq!(route_key("b", "B"), ("B".to_string(), "b".to_string()));
    assert_eq!(route_key("ab", "a"), ("a".to_string(), "ab".to_string()));
}

#[test]
fn every_config_is_valid() {
    let config = Config { fee_recipient: "fee".to_string(), admin: "admin".to_string() };
    assert!(config.validate().is_ok());
}

#[test]
fn a_route_is_travelled_backward_from_its_target() {
    let ids = ["0x01", "0x02", "0x03"];
    let route = SwapRoute {
        steps: ids.iter().map(|s| MarketId::unchecked(s.to_string())).collect(),
        source_denom: "eth".to_string(),
        target_denom: "atom".to_string(),
    };
    let forward: Vec<String> = route.steps_from("eth").iter().map(|m| m.as_str().to_string()).collect();
    let backward: Vec<String> = route.steps_from("atom").iter().map(|m| m.as_str().to_string()).collect();
    assert_eq!(forward, vec!["0x01", "0x02", "0x03"]);
    assert_eq!(backward, vec!["0x03", "0x02", "0x01"]);
}
