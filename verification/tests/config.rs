use renge::config::{parse_bool, AppConfig, ConfigError, LogFormat};

#[test]
fn defaults_to_pretty_logs_and_untrusted_proxy_headers() {
    let config = AppConfig::from_values(None, None).unwrap();

    assert_eq!(config.log_format, LogFormat::Pretty);
    assert!(!config.trust_proxy_headers);
}

#[test]
fn accepts_json_logs_and_trusted_proxy_headers() {
    let config = AppConfig::from_values(Some("json"), Some("true")).unwrap();

    assert_eq!(config.log_format, LogFormat::Json);
    assert!(config.trust_proxy_headers);
}

#[test]
fn rejects_invalid_log_format() {
    let error = AppConfig::from_values(Some("text"), None).unwrap_err();

    assert_eq!(error, ConfigError::InvalidLogFormat("text".to_owned()));
}

#[test]
fn rejects_invalid_proxy_header_setting() {
    let error = AppConfig::from_values(None, Some("yes")).unwrap_err();

    assert_eq!(
        error,
        ConfigError::InvalidTrustProxyHeaders("yes".to_owned())
    );
}

#[test]
fn accepts_explicit_pretty_and_false() {
    let config = AppConfig::from_values(Some("pretty"), Some("false")).unwrap();
    assert_eq!(config.log_format, LogFormat::Pretty);
    assert!(!config.trust_proxy_headers);
}

#[test]
fn log_format_is_checked_before_proxy_setting() {
    let error = AppConfig::from_values(Some("JSON"), Some("yes")).unwrap_err();
    assert_eq!(error, ConfigError::InvalidLogFormat("JSON".to_owned()));
}

#[test]
fn bool_parsing_is_exact() {
    assert_eq!(parse_bool("true"), Some(true));
    assert_eq!(parse_bool("false"), Some(false));
    assert_eq!(parse_bool("True"), None);
    assert_eq!(parse_bool(" true"), None);
    assert_eq!(parse_bool(""), None);
}

#[test]
fn log_format_from_str_matches_from_name() {
    assert_eq!("json".parse::<LogFormat>(), Ok(LogFormat::Json));
    assert_eq!(
        "xml".parse::<LogFormat>(),
        Err(ConfigError::InvalidLogFormat("xml".to_owned()))
    );
}

#[test]
fn config_error_messages() {
    assert_eq!(
        ConfigError::InvalidLogFormat("text".to_owned()).message(),
        "LOG_FORMAT は pretty または json を指定してください: text"
    );
    assert_eq!(
        ConfigError::InvalidTrustProxyHeaders("yes".to_owned()).message(),
        "TRUST_PROXY_HEADERS は true または false を指定してください: yes"
    );
}
