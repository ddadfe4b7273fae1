use todo_api::config::{Config, ConfigError, RawSettings};
use todo_api::numeric::{i32_to_string, parse_i32};
use todo_api::response::not_found_message;

fn settings(host: Option<&str>, port: Option<&str>) -> RawSettings {
    RawSettings {
        host: host.map(|h| h.to_string()),
        port: port.map(|p| p.to_string()),
    }
}

#[test]
fn renders_small_numbers() {
    assert_eq!(i32_to_string(0), "0");
    assert_eq!(i32_to_string(7), "7");
    assert_eq!(i32_to_string(42), "42");
    assert_eq!(i32_to_string(1000), "1000");
}

#[test]
fn renders_negative_and_extreme_numbers() {
    assert_eq!(i32_to_string(-1), "-1");
    assert_eq!(i32_to_string(i32::MAX), "2147483647");
    assert_eq!(i32_to_string(i32::MIN), "-2147483648");
}

#[test]
fn not_found_message_embeds_the_identifier() {
    assert_eq!(not_found_message(1), "Todo with ID: 1 not found");
    assert_eq!(not_found_message(-3), "Todo with ID: -3 not found");
}

#[test]
fn parses_plain_decimals() {
    assert_eq!(parse_i32("0"), Some(0));
    assert_eq!(parse_i32("8080"), Some(8080));
    assert_eq!(parse_i32("007"), Some(7));
    assert_eq!(parse_i32("-1"), Some(-1));
}

#[test]
fn parses_the_full_i32_range() {
    assert_eq!(parse_i32("2147483647"), Some(i32::MAX));
    assert_eq!(parse_i32("-2147483648"), Some(i32::MIN));
    assert_eq!(parse_i32("2147483648"), None);
    assert_eq!(parse_i32("-2147483649"), None);
    assert_eq!(parse_i32("99999999999999999999"), None);
}

#[test]
fn rejects_malformed_numbers() {
    assert_eq!(parse_i32(""), None);
    assert_eq!(parse_i32("-"), None);
    assert_eq!(parse_i32("abc"), None);
    assert_eq!(parse_i32("12a"), None);
    assert_eq!(parse_i32("1 2"), None);
    assert_eq!(parse_i32("+5"), None);
}

#[test]
fn from_env_reads_host_and_port() {
    let file = settings(None, None);
    let env = settings(Some("127.0.0.1"), Some("8080"));
    let c = Config::from_env(file, env).expect("complete settings");
    assert_eq!(c.server.host, "127.0.0.1");
    assert_eq!(c.server.port, 8080);
}

#[test]
fn from_env_falls_back_to_file_defaults() {
    let file = settings(Some("0.0.0.0"), Some("3000"));
    let env = settings(None, None);
    let c = Config::from_env(file, env).expect("file defaults suffice");
    assert_eq!(c.server.host, "0.0.0.0");
    assert_eq!(c.server.port, 3000);
}

#[test]
fn environment_takes_precedence_over_file() {
    let file = settings(Some("0.0.0.0"), Some("3000"));
    let env = settings(Some("localhost"), Some("9000"));
    let c = Config::from_env(file, env).expect("complete settings");
    assert_eq!(c.server.host, "localhost");
    assert_eq!(c.server.port, 9000);
}

#[test]
fn missing_host_fails_fast() {
    let r = Config::from_env(settings(None, Some("8080")), settings(None, None));
    assert_eq!(r.err(), Some(ConfigError::MissingHost));
}

#[test]
fn missing_port_fails_fast() {
    let r = Config::from_env(settings(Some("h"), None), settings(None, None));
    assert_eq!(r.err(), Some(ConfigError::MissingPort));
}

#[test]
fn malformed_port_fails_fast() {
    let r = Config::from_env(settings(None, None), settings(Some("h"), Some("eighty")));
    assert_eq!(r.err(), Some(ConfigError::InvalidPort));
    let r2 = Config::from_env(settings(None, None), settings(Some("h"), Some("80.5")));
    assert_eq!(r2.err(), Some(ConfigError::InvalidPort));
}
