use eth_gateway::account::{finish_account_query, AccountReadings};
use eth_gateway::config::{parse_port, Config};
use eth_gateway::decimal::Uint256;
use eth_gateway::error::GatewayError;
use eth_gateway::reply::{account_reply, token_reply};
use eth_gateway::service::validate_request;
use eth_gateway::token::{finish_token_query, TokenReadings};

fn config_with_url() -> Config {
    Config::build(Some("http://localhost:8545".to_string()), None, None)
        .expect("default host and port build")
}

fn config_without_url() -> Config {
    Config::build(None, None, None).expect("default host and port build")
}

#[test]
fn port_text_parses_exactly() {
    assert_eq!(parse_port("3000"), Some(3000));
    assert_eq!(parse_port("0"), Some(0));
    assert_eq!(parse_port("65535"), Some(65535));
    assert_eq!(parse_port("0080"), Some(80));
}

#[test]
fn bad_port_text_is_rejected() {
    assert_eq!(parse_port("65536"), None);
    assert_eq!(parse_port(""), None);
    assert_eq!(parse_port("80a"), None);
    assert_eq!(parse_port("-1"), None);
    assert_eq!(parse_port("999999999999999999"), None);
}

#[test]
fn config_defaults_apply() {
    let cfg = config_without_url();
    assert_eq!(cfg.host, "127.0.0.1");
    assert_eq!(cfg.port, 3000);
    assert!(cfg.rpc_url.is_none());
}

#[test]
fn config_keeps_supplied_values() {
    let cfg = Config::build(
        Some("http://node.example:8545".to_string()),
        Some("0.0.0.0".to_string()),
        Some("8080".to_string()),
    )
    .expect("valid values build");
    assert_eq!(cfg.rpc_url.as_deref(), Some("http://node.example:8545"));
    assert_eq!(cfg.host, "0.0.0.0");
    assert_eq!(cfg.port, 8080);
}

#[test]
fn config_refuses_bad_port_text() {
    assert!(Config::build(None, None, Some("70000".to_string())).is_none());
    assert!(Config::build(None, None, Some("abc".to_string())).is_none());
}

#[test]
fn status_codes_per_error() {
    assert_eq!(GatewayError::InvalidAddress.status_code(), 400);
    assert_eq!(GatewayError::MissingConfiguration.status_code(), 500);
    assert_eq!(GatewayError::UpstreamRpcFailure.status_code(), 400);
}

#[test]
fn missing_configuration_wins_over_address_checks() {
    let cfg = config_without_url();
    let r = validate_request(&cfg, "0x0000000000000000000000000000000000000000");
    assert_eq!(r.unwrap_err(), GatewayError::MissingConfiguration);
}

#[test]
fn missing_configuration_maps_to_500() {
    let cfg = config_without_url();
    let r = validate_request(&cfg, "0x0000000000000000000000000000000000000000");
    let reply = account_reply(Err(r.unwrap_err()));
    assert_eq!(reply.status, 500);
    assert!(reply.body.is_none());
}

#[test]
fn invalid_address_maps_to_400_with_no_body() {
    let cfg = config_with_url();
    let r = validate_request(&cfg, "not-an-address");
    let e = r.unwrap_err();
    assert_eq!(e, GatewayError::InvalidAddress);
    let reply = account_reply(Err(e));
    assert_eq!(reply.status, 400);
    assert!(reply.body.is_none());
}

#[test]
fn upstream_failure_maps_to_400_with_no_body() {
    let outcome = finish_account_query(None);
    let e = outcome.unwrap_err();
    assert_eq!(e, GatewayError::UpstreamRpcFailure);
    let reply = account_reply(Err(e));
    assert_eq!(reply.status, 400);
    assert!(reply.body.is_none());

    let outcome = finish_token_query("0x0000000000000000000000000000000000000000", None);
    let e = outcome.unwrap_err();
    assert_eq!(e, GatewayError::UpstreamRpcFailure);
    let reply = token_reply(Err(e));
    assert_eq!(reply.status, 400);
    assert!(reply.body.is_none());
}

fn stub_account_readings() -> AccountReadings {
    AccountReadings {
        gas_price: Uint256::from_u64(21000000000),
        block_number: 18000000,
        balance: Uint256::from_u64(1000000000000000000),
    }
}

#[test]
fn account_scenario_renders_expected_body() {
    let cfg = config_with_url();
    let addr = validate_request(&cfg, "0x0000000000000000000000000000000000000000");
    assert!(addr.is_ok());
    let outcome = finish_account_query(Some(stub_account_readings()));
    let reply = account_reply(outcome);
    assert_eq!(reply.status, 200);
    assert_eq!(
        reply.body.as_deref(),
        Some(
            "{\"gasPrice\":\"21000000000\",\"blockNumber\":18000000,\"balance\":\"1000000000000000000\"}"
        )
    );
}

#[test]
fn token_scenario_renders_expected_body() {
    let address_text = "0xAbCdEf0123456789abcdef0123456789ABCDEF01";
    let cfg = config_with_url();
    let addr = validate_request(&cfg, address_text);
    assert!(addr.is_ok());
    let readings = TokenReadings {
        name: "TestToken".to_string(),
        symbol: "TT".to_string(),
        // 10^21 split into 64-bit limbs.
        total_supply: Uint256::from_limbs(3875820019684212736, 54, 0, 0),
    };
    let outcome = finish_token_query(address_text, Some(readings));
    let reply = token_reply(outcome);
    assert_eq!(reply.status, 200);
    assert_eq!(
        reply.body.as_deref(),
        Some(
            "{\"address\":\"0xAbCdEf0123456789abcdef0123456789ABCDEF01\",\"name\":\"TestToken\",\"symbol\":\"TT\",\"totalSupply\":\"1000000000000000000000\"}"
        )
    );
}

#[test]
fn token_body_escapes_special_characters() {
    let address_text = "0x0000000000000000000000000000000000000000";
    let readings = TokenReadings {
        name: "a\"b\\c\nd".to_string(),
        symbol: "TT".to_string(),
        total_supply: Uint256::from_u64(1),
    };
    let outcome = finish_token_query(address_text, Some(readings));
    let reply = token_reply(outcome);
    let body = reply.body.expect("success carries a body");
    assert!(body.contains("\"name\":\"a\\\"b\\\\c\\u000ad\""));
}

#[test]
fn identical_requests_render_identical_bytes() {
    let first = account_reply(finish_account_query(Some(stub_account_readings())));
    let second = account_reply(finish_account_query(Some(stub_account_readings())));
    assert_eq!(first.body, second.body);
    assert_eq!(first.status, second.status);
}

#[test]
fn invalid_address_route_yields_400_and_no_success_fields() {
    let cfg = config_with_url();
    let r = validate_request(&cfg, "not-an-address");
    let reply = token_reply(Err(r.unwrap_err()));
    assert_eq!(reply.status, 400);
    assert!(reply.body.is_none());
}
