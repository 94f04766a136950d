//! Settings of the web application, read from two optional texts.

use crate::text::{concat, str_eq};
use vstd::prelude::*;

verus! {

/// How log lines are written.
#[derive(Clone, Copy, Debug, PartialEq, Eq, Structural)]
pub enum LogFormat {
    Pretty,
    Json,
}

/// The settings of the web application.
#[derive(Clone, Copy, Debug, PartialEq, Eq, Structural)]
pub struct AppConfig {
    pub log_format: LogFormat,
    pub trust_proxy_headers: bool,
}

/// A setting that holds no accepted value; the text is the value given.
#[derive(Debug, PartialEq, Eq)]
pub enum ConfigError {
    InvalidLogFormat(String),
    InvalidTrustProxyHeaders(String),
}

/// The log format that a name selects: `pretty` or `json`.
pub open spec fn spec_log_format(s: Seq<char>) -> Option<LogFormat> {
    if s == "pretty"@ {
        Some(LogFormat::Pretty)
    } else if s == "json"@ {
        Some(LogFormat::Json)
    } else {
        None
    }
}

/// What `bool::from_str` accepts: exactly `true` or `false`.
pub open spec fn spec_parse_bool(s: Seq<char>) -> Option<bool> {
    if s == "true"@ {
        Some(true)
    } else if s == "false"@ {
        Some(false)
    } else {
        None
    }
}

/// The text that an optional log format setting stands for.
pub open spec fn log_format_text(log_format: Option<&str>) -> Seq<char> {
    match log_format {
        Some(s) => s@,
        None => "pretty"@,
    }
}

/// The outcome of `AppConfig::from_values`: the log format is checked
/// first (absent means `pretty`), then the proxy setting (absent means
/// `false`).
pub open spec fn config_matches(
    log_format: Option<&str>,
    trust_proxy_headers: Option<&str>,
    r: Result<AppConfig, ConfigError>,
) -> bool {
    match spec_log_format(log_format_text(log_format)) {
        None => r matches Err(ConfigError::InvalidLogFormat(v)) && v@ == log_format_text(
            log_format,
        ),
        Some(format) => match trust_proxy_headers {
            None => r == Ok::<AppConfig, ConfigError>(
                AppConfig { log_format: format, trust_proxy_headers: false },
            ),
            Some(t) => match spec_parse_bool(t@) {
                Some(b) => r == Ok::<AppConfig, ConfigError>(
                    AppConfig { log_format: format, trust_proxy_headers: b },
                ),
                None => r matches Err(ConfigError::InvalidTrustProxyHeaders(v)) && v@ == t@,
            },
        },
    }
}

/// The settings are read exactly when the log format (absent meaning
/// `pretty`) is `pretty` or `json` and the proxy setting is absent, `true`
/// or `false`. The proxy headers are then trusted exactly when the proxy
/// setting is `true`, whether or not the log format was given, and the log
/// format is the one named.
pub proof fn lemma_config_settings(
    log_format: Option<&str>,
    trust_proxy_headers: Option<&str>,
    r: Result<AppConfig, ConfigError>,
)
    requires
        config_matches(log_format, trust_proxy_headers, r),
    ensures
        r is Ok <==> {
            &&& (log_format_text(log_format) == "pretty"@ || log_format_text(log_format)
                == "json"@)
            &&& (trust_proxy_headers matches Some(t) ==> (t@ == "true"@ || t@ == "false"@))
        },
        r matches Ok(c) ==> {
            &&& c.trust_proxy_headers == (trust_proxy_headers matches Some(t) && t@ == "true"@)
            &&& (c.log_format == LogFormat::Json <==> log_format_text(log_format) == "json"@)
        },
{
    reveal_strlit("true");
    reveal_strlit("false");
    reveal_strlit("pretty");
    reveal_strlit("json");
    assert("true"@.len() == 4);
    assert("false"@.len() == 5);
    assert("pretty"@.len() == 6);
    assert("json"@.len() == 4);
}

impl LogFormat {
    /// The log format named `value`.
    pub fn from_name(value: &str) -> (format: Result<Self, ConfigError>)
        ensures
            match format {
                Ok(f) => spec_log_format(value@) == Some(f),
                Err(e) => spec_log_format(value@) is None && (e matches ConfigError::InvalidLogFormat(
                    v,
                ) && v@ == value@),
            },
    {
        if str_eq(value, "pretty") {
            Ok(LogFormat::Pretty)
        } else if str_eq(value, "json") {
            Ok(LogFormat::Json)
        } else {
            Err(ConfigError::InvalidLogFormat(value.to_owned()))
        }
    }
}

impl std::str::FromStr for LogFormat {
    type Err = ConfigError;

    fn from_str(value: &str) -> (format: Result<Self, Self::Err>)
        ensures
            match format {
                Ok(f) => spec_log_format(value@) == Some(f),
                Err(e) => spec_log_format(value@) is None && (e matches ConfigError::InvalidLogFormat(
                    v,
                ) && v@ == value@),
            },
    {
        LogFormat::from_name(value)
    }
}

/// `bool::from_str`.
pub fn parse_bool(value: &str) -> (b: Option<bool>)
    ensures
        b == spec_parse_bool(value@),
{
    if str_eq(value, "true") {
        Some(true)
    } else if str_eq(value, "false") {
        Some(false)
    } else {
        None
    }
}

impl AppConfig {
    /// The settings that the two optional texts give.
    pub fn from_values(log_format: Option<&str>, trust_proxy_headers: Option<&str>) -> (config:
        Result<Self, ConfigError>)
        ensures
            config_matches(log_format, trust_proxy_headers, config),
    {
        let log_format_value = match log_format {
            Some(value) => value,
            None => "pretty",
        };
        let log_format = LogFormat::from_name(log_format_value)?;
        let trust_proxy_headers = match trust_proxy_headers {
            Some(value) => match parse_bool(value) {
                Some(b) => b,
                None => return Err(ConfigError::InvalidTrustProxyHeaders(value.to_owned())),
            },
            None => false,
        };
        Ok(Self { log_format, trust_proxy_headers })
    }
}

impl ConfigError {
    /// The message shown for this error.
    pub fn message(&self) -> (m: String)
        ensures
            m@ == match self {
                ConfigError::InvalidLogFormat(v) => "LOG_FORMAT は pretty または json を指定してください: "@
                    + v@,
                ConfigError::InvalidTrustProxyHeaders(v) =>
                    "TRUST_PROXY_HEADERS は true または false を指定してください: "@ + v@,
            },
    {
        match self {
            ConfigError::InvalidLogFormat(value) => concat(
                "LOG_FORMAT は pretty または json を指定してください: ",
                value.as_str(),
            ),
            ConfigError::InvalidTrustProxyHeaders(value) => concat(
                "TRUST_PROXY_HEADERS は true または false を指定してください: ",
                value.as_str(),
            ),
        }
    }
}

} // verus!
