use phantom_host::environment::{
    environment_from_str, environment_str, get_enviroment, strategy, DeliveryStrategy, Environment,
};
use phantom_host::host::{bind_address, exit_status, router_plan, RouterLayer};
use phantom_host::ports::{frontend_port, parse_port, server_port};
use phantom_host::proxy::{cache_key, create_proxy_config, default_exclude_rules, should_cache};
use phantom_host::supervisor::HostError;
use phantom_host::text::{contains_sub, str_eq, u16_to_string};

#[test]
fn classify_follows_debug_flag() {
    assert_eq!(get_enviroment(true), Environment::Development);
    assert_eq!(get_enviroment(false), Environment::Production);
}

#[test]
fn one_strategy_per_configuration() {
    assert_eq!(strategy(Environment::Development, true), DeliveryStrategy::DevServer);
    assert_eq!(strategy(Environment::Development, false), DeliveryStrategy::DevServer);
    assert_eq!(strategy(Environment::Production, true), DeliveryStrategy::NativeBinary);
    assert_eq!(strategy(Environment::Production, false), DeliveryStrategy::HostedScript);
}

#[test]
fn environment_names_round_trip() {
    assert_eq!(environment_str(&Environment::Development), "development");
    assert_eq!(environment_str(&Environment::Production), "production");
    assert_eq!(environment_from_str("production"), Environment::Production);
    assert_eq!(environment_from_str("development"), Environment::Development);
    assert_eq!(environment_from_str("anything else"), Environment::Development);
}

#[test]
fn port_parses_in_range() {
    assert_eq!(parse_port("8080"), Some(8080));
    assert_eq!(parse_port("1"), Some(1));
    assert_eq!(parse_port("65535"), Some(65535));
    assert_eq!(parse_port("+3030"), Some(3030));
}

#[test]
fn port_out_of_range_or_non_numeric_is_rejected() {
    assert_eq!(parse_port("0"), None);
    assert_eq!(parse_port("65536"), None);
    assert_eq!(parse_port("70000"), None);
    assert_eq!(parse_port("abc"), None);
    assert_eq!(parse_port(""), None);
    assert_eq!(parse_port("80a"), None);
    assert_eq!(parse_port("-1"), None);
    assert_eq!(parse_port("+"), None);
}

#[test]
fn server_port_falls_back_to_default() {
    assert_eq!(server_port(None), 3030);
    assert_eq!(server_port(Some("8080")), 8080);
    assert_eq!(server_port(Some("0")), 3030);
    assert_eq!(server_port(Some("65536")), 3030);
    assert_eq!(server_port(Some("not a number")), 3030);
}

#[test]
fn frontend_port_per_mode() {
    assert_eq!(frontend_port(&Environment::Development, 40000), 5173);
    assert_eq!(frontend_port(&Environment::Production, 40000), 40000);
}

#[test]
fn decimal_rendering() {
    assert_eq!(u16_to_string(0).as_str(), "0");
    assert_eq!(u16_to_string(7).as_str(), "7");
    assert_eq!(u16_to_string(5173).as_str(), "5173");
    assert_eq!(u16_to_string(65535).as_str(), "65535");
}

#[test]
fn string_utilities() {
    assert!(str_eq("abc", "abc"));
    assert!(!str_eq("abc", "abd"));
    assert!(!str_eq("abc", "abcd"));
    assert!(contains_sub("hello world", "lo wo"));
    assert!(contains_sub("hello", ""));
    assert!(!contains_sub("hello", "world"));
}

#[test]
fn proxy_config_values() {
    let c = create_proxy_config(4567, &Environment::Production);
    assert_eq!(c.upstream_origin.as_str(), "http://localhost:4567");
    assert!(!c.websocket_enabled);
    let rules: Vec<&str> = c.exclude_rules.iter().map(|r| r.as_str()).collect();
    assert_eq!(rules, vec!["POST *", "PUT *", "DELETE *", "PATCH *"]);

    let dev = create_proxy_config(5173, &Environment::Development);
    assert!(dev.websocket_enabled);
}

#[test]
fn cache_key_shape() {
    assert_eq!(cache_key("GET", "/api/ping").as_str(), "GET::/api/ping");
    assert_eq!(cache_key("POST", "/api/item").as_str(), "POST::/api/item");
}

#[test]
fn mutating_requests_bypass_cache() {
    let rules = default_exclude_rules();
    assert!(!should_cache(&rules, "POST", "/api/item"));
    assert!(!should_cache(&rules, "PUT", "/api/item"));
    assert!(!should_cache(&rules, "DELETE", "/api/item"));
    assert!(!should_cache(&rules, "PATCH", "/api/item"));
}

#[test]
fn post_item_bypasses_cache_under_built_config() {
    let c = create_proxy_config(4000, &Environment::Production);
    assert!(!should_cache(&c.exclude_rules, "POST", "/api/item"));
    assert!(should_cache(&c.exclude_rules, "GET", "/api/item"));
}

#[test]
fn safe_requests_are_cached() {
    let rules = default_exclude_rules();
    assert!(should_cache(&rules, "GET", "/api/ping"));
    assert!(should_cache(&rules, "HEAD", "/index.html"));
}

#[test]
fn empty_exclude_list_caches_everything() {
    let rules: Vec<String> = Vec::new();
    assert!(should_cache(&rules, "POST", "/api/item"));
    assert!(should_cache(&rules, "GET", "/index.html"));
}

#[test]
fn router_order_per_mode() {
    let prod = router_plan(&Environment::Production);
    assert_eq!(
        prod,
        vec![RouterLayer::StaticAssets, RouterLayer::ProxySubtree, RouterLayer::StateInjector]
    );
    let dev = router_plan(&Environment::Development);
    assert_eq!(dev, vec![RouterLayer::ProxySubtree, RouterLayer::StateInjector]);
}

#[test]
fn bind_address_shape() {
    assert_eq!(bind_address(3030).as_str(), "127.0.0.1:3030");
    assert_eq!(bind_address(80).as_str(), "127.0.0.1:80");
}

#[test]
fn exit_status_codes() {
    assert_eq!(exit_status(&Ok(())), 0);
    assert_eq!(exit_status(&Err(HostError::ServeTerminated)), 1);
    assert_eq!(exit_status(&Err(HostError::FrontendNotReady)), 1);
}
