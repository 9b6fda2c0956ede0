use discline::config::Config;
use discline::errors::ConfigError;
use discline::text::{escape_json, parse_u64, u64_to_string};

#[test]
fn test_config_default_values() {
    let config = Config::default();
    assert_eq!(config.auth.token, "");
    assert_eq!(config.ui.theme, "default");
    assert!(!config.ui.vim_mode);
    assert_eq!(config.cache.max_messages, 100);
}

#[test]
fn test_token_file_wins_over_env() {
    let mut config = Config::default();
    config.auth.token = "file-token".to_string();
    let resolved = config.resolve_token(Some("env-token".to_string())).unwrap();
    assert_eq!(resolved.auth.token, "file-token");
}

#[test]
fn test_token_env_fallback() {
    let config = Config::default();
    let resolved = config.resolve_token(Some("env-token".to_string())).unwrap();
    assert_eq!(resolved.auth.token, "env-token");
}

#[test]
fn test_token_missing_is_rejected() {
    let config = Config::default();
    let result = config.resolve_token(None);
    assert!(matches!(result, Err(ConfigError::MissingToken)));
    let config = Config::default();
    let result = config.resolve_token(Some(String::new()));
    assert!(matches!(result, Err(ConfigError::MissingToken)));
}

#[test]
fn test_u64_to_string_values() {
    assert_eq!(u64_to_string(0), "0");
    assert_eq!(u64_to_string(12345), "12345");
    assert_eq!(u64_to_string(18446744073709551615), "18446744073709551615");
}

#[test]
fn test_parse_u64_values() {
    assert_eq!(parse_u64("0"), Some(0));
    assert_eq!(parse_u64("5"), Some(5));
    assert_eq!(parse_u64("+7"), Some(7));
    assert_eq!(parse_u64("18446744073709551615"), Some(18446744073709551615));
    assert_eq!(parse_u64("18446744073709551616"), None);
    assert_eq!(parse_u64(""), None);
    assert_eq!(parse_u64("+"), None);
    assert_eq!(parse_u64("12a"), None);
    assert_eq!(parse_u64("-3"), None);
}

#[test]
fn test_escape_json_values() {
    assert_eq!(escape_json("plain"), "plain");
    assert_eq!(escape_json("a\"b"), "a\\\"b");
    assert_eq!(escape_json("a\\b"), "a\\\\b");
    assert_eq!(escape_json("a\nb\tc"), "a\\u000ab\\u0009c");
    assert_eq!(escape_json(""), "");
}
