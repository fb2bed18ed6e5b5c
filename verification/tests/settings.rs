use r2_proxy::config::parse_port;
use r2_proxy::config::port_error_message;
use r2_proxy::config::Config;
use r2_proxy::config::ConfigError;
use r2_proxy::config::EnvValues;
use r2_proxy::config::PortError;

fn full_env() -> EnvValues {
    EnvValues {
        port: Some("8080".to_string()),
        cloudflare_account_id: Some("acct".to_string()),
        cloudflare_api_token: Some("token".to_string()),
        r2_endpoint: Some("https://r2.example".to_string()),
        r2_access_key_id: Some("key-id".to_string()),
        r2_secret_access_key: Some("secret".to_string()),
    }
}

#[test]
fn parse_port_reads_decimal_numbers() {
    assert_eq!(parse_port("3000"), Ok(3000));
    assert_eq!(parse_port("0"), Ok(0));
    assert_eq!(parse_port("65535"), Ok(65535));
    assert_eq!(parse_port("+80"), Ok(80));
    assert_eq!(parse_port("0000000080"), Ok(80));
}

#[test]
fn parse_port_says_what_is_wrong() {
    assert_eq!(parse_port(""), Err(PortError::Empty));
    assert_eq!(parse_port("+"), Err(PortError::InvalidDigit));
    assert_eq!(parse_port("-"), Err(PortError::InvalidDigit));
    assert_eq!(parse_port("-1"), Err(PortError::InvalidDigit));
    assert_eq!(parse_port("++1"), Err(PortError::InvalidDigit));
    assert_eq!(parse_port("12a"), Err(PortError::InvalidDigit));
    assert_eq!(parse_port(" 80"), Err(PortError::InvalidDigit));
    assert_eq!(parse_port("８０"), Err(PortError::InvalidDigit));
    assert_eq!(parse_port("65536"), Err(PortError::TooLarge));
    assert_eq!(parse_port("99999x"), Err(PortError::TooLarge));
    assert_eq!(parse_port("9999x"), Err(PortError::InvalidDigit));
}

#[test]
fn parse_port_agrees_with_std() {
    let samples = [
        "", "0", "1", "+1", "-1", "+", "-", "+-1", "65535", "65536", "065535", "655350", "6553a",
        "65536a", "a65536", "3000", " 3000", "3000 ", "1e3", "0x10", "+0", "-0", "99999999999",
        "é", "1é", "99999é",
    ];
    for sample in samples {
        match (parse_port(sample), sample.parse::<u16>()) {
            (Ok(ours), Ok(theirs)) => assert_eq!(ours, theirs, "{:?}", sample),
            (Err(ours), Err(theirs)) => {
                assert_eq!(port_error_message(ours), theirs.to_string(), "{:?}", sample)
            }
            (ours, theirs) => panic!("{:?}: {:?} against {:?}", sample, ours, theirs),
        }
    }
}

#[test]
fn port_error_message_names_each_reason() {
    assert_eq!(port_error_message(PortError::Empty), "cannot parse integer from empty string");
    assert_eq!(port_error_message(PortError::InvalidDigit), "invalid digit found in string");
    assert_eq!(
        port_error_message(PortError::TooLarge),
        "number too large to fit in target type"
    );
}

#[test]
fn from_env_takes_every_value() {
    let config = Config::from_env(full_env()).unwrap();
    assert_eq!(config.port, 8080);
    assert_eq!(config.cloudflare_account_id, "acct");
    assert_eq!(config.cloudflare_api_token, "token");
    assert_eq!(config.r2_endpoint, "https://r2.example");
    assert_eq!(config.r2_access_key_id, "key-id");
    assert_eq!(config.r2_secret_access_key, "secret");
}

#[test]
fn from_env_defaults_the_port_to_3000() {
    let mut env = full_env();
    env.port = None;
    assert_eq!(Config::from_env(env).unwrap().port, 3000);
}

#[test]
fn from_env_rejects_a_bad_port() {
    let mut env = full_env();
    env.port = Some("http".to_string());
    match Config::from_env(env) {
        Err(ConfigError::InvalidPort(reason)) => {
            assert_eq!(reason, "invalid digit found in string")
        }
        other => panic!("{:?}", other),
    }
    let mut env = full_env();
    env.port = Some("70000".to_string());
    match Config::from_env(env) {
        Err(ConfigError::InvalidPort(reason)) => {
            assert_eq!(reason, "number too large to fit in target type")
        }
        other => panic!("{:?}", other),
    }
    let mut env = full_env();
    env.port = Some(String::new());
    match Config::from_env(env) {
        Err(ConfigError::InvalidPort(reason)) => {
            assert_eq!(reason, "cannot parse integer from empty string")
        }
        other => panic!("{:?}", other),
    }
}

fn missing_name(env: EnvValues) -> String {
    match Config::from_env(env) {
        Err(ConfigError::MissingEnvVar(name)) => name,
        other => panic!("{:?}", other),
    }
}

#[test]
fn from_env_names_the_missing_variable() {
    let mut env = full_env();
    env.cloudflare_account_id = None;
    assert_eq!(missing_name(env), "CLOUDFLARE_ACCOUNT_ID");
    let mut env = full_env();
    env.cloudflare_api_token = None;
    assert_eq!(missing_name(env), "CLOUDFLARE_API_TOKEN");
    let mut env = full_env();
    env.r2_endpoint = None;
    assert_eq!(missing_name(env), "R2_ENDPOINT");
    let mut env = full_env();
    env.r2_access_key_id = None;
    assert_eq!(missing_name(env), "R2_ACCESS_KEY_ID");
    let mut env = full_env();
    env.r2_secret_access_key = None;
    assert_eq!(missing_name(env), "R2_SECRET_ACCESS_KEY");
}

#[test]
fn from_env_reports_the_first_failure_in_field_order() {
    let mut env = full_env();
    env.cloudflare_api_token = None;
    env.r2_secret_access_key = None;
    assert_eq!(missing_name(env), "CLOUDFLARE_API_TOKEN");
    let mut env = full_env();
    env.port = Some("x".to_string());
    env.cloudflare_account_id = None;
    assert!(matches!(Config::from_env(env), Err(ConfigError::InvalidPort(_))));
}

#[test]
fn config_error_to_message_writes_the_error_out() {
    assert_eq!(
        ConfigError::MissingEnvVar("R2_ENDPOINT".to_string()).to_message(),
        "Missing env var: R2_ENDPOINT"
    );
    assert_eq!(
        ConfigError::InvalidPort("invalid digit found in string".to_string()).to_message(),
        "Port parse failed: invalid digit found in string"
    );
}

#[test]
fn config_clone_copies_every_field() {
    let config = Config::from_env(full_env()).unwrap();
    let copy = config.clone();
    assert_eq!(copy.port, config.port);
    assert_eq!(copy.cloudflare_account_id, config.cloudflare_account_id);
    assert_eq!(copy.cloudflare_api_token, config.cloudflare_api_token);
    assert_eq!(copy.r2_endpoint, config.r2_endpoint);
    assert_eq!(copy.r2_access_key_id, config.r2_access_key_id);
    assert_eq!(copy.r2_secret_access_key, config.r2_secret_access_key);
}
