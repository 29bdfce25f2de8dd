//! Application configuration: where the store lives and where the server
//! listens. Reading the configuration file from disk belongs to the caller;
//! this module parses its text and carries the values.

use vstd::prelude::*;
use vstd::string::StringExecFns;

verus! {

/// Where the durable store lives.
#[derive(Clone)]
pub struct DatabaseConfig {
    pub url: String,
}

/// Where the server listens, and under which public base address it is
/// reachable.
#[derive(Clone)]
pub struct ServerConfig {
    pub host: String,
    pub port: u16,
    pub base_url: Option<String>,
}

/// Optional debugging aid: an artificial delay injected into every request.
#[derive(Clone)]
pub struct DebugConfig {
    pub inject_sleep: bool,
    pub sleep_millis: u64,
}

/// The application's configuration.
#[derive(Clone)]
pub struct AppConfig {
    pub database: DatabaseConfig,
    pub server: ServerConfig,
    pub debug: Option<DebugConfig>,
}

/// The built-in fallback values: a local file-backed store and every
/// interface on port 8080.
pub open spec fn spec_default_config(c: AppConfig) -> bool {
    &&& c.database.url@ == "sqlite:kore-douyo.sqlite3"@
    &&& c.server.host@ == "0.0.0.0"@
    &&& c.server.port == 8080
    &&& c.server.base_url is None
    &&& c.debug is None
}

impl Default for AppConfig {
    /// The built-in fallback configuration.
    fn default() -> (r: Self)
        ensures
            spec_default_config(r),
    {
        AppConfig {
            database: DatabaseConfig { url: String::from_str("sqlite:kore-douyo.sqlite3") },
            server: ServerConfig {
                host: String::from_str("0.0.0.0"),
                port: 8080,
                base_url: None,
            },
            debug: None,
        }
    }
}

/// Names the string value that TOML text holds at a dotted key, as the
/// `config` crate reads it; `None` where the text does not parse, the key is
/// absent, or the value is not string-convertible. A function of the text
/// and the key alone.
pub uninterp spec fn toml_string_value(text: Seq<char>, key: Seq<char>) -> Option<Seq<char>>;

/// Names the integer value that TOML text holds at a dotted key, as the
/// `config` crate reads it. A function of the text and the key alone.
pub uninterp spec fn toml_int_value(text: Seq<char>, key: Seq<char>) -> Option<i64>;

/// Names the boolean value that TOML text holds at a dotted key, as the
/// `config` crate reads it. A function of the text and the key alone.
pub uninterp spec fn toml_bool_value(text: Seq<char>, key: Seq<char>) -> Option<bool>;

/// Relies on `config::Config::builder`, `config::File::from_str`,
/// `ConfigBuilder::build` and `Config::get_string`: the string value at a
/// dotted key of the TOML text; deterministic in the text and the key.
#[verifier::external_body]
fn toml_get_string(text: &str, key: &str) -> (r: Option<String>)
    ensures
        r.deep_view() == toml_string_value(text@, key@),
{
    config::Config::builder()
        .add_source(config::File::from_str(text, config::FileFormat::Toml))
        .build()
        .ok()
        .and_then(|c| c.get_string(key).ok())
}

/// Relies on `config::Config::builder`, `config::File::from_str`,
/// `ConfigBuilder::build` and `Config::get_int`: the integer value at a
/// dotted key of the TOML text; deterministic in the text and the key.
#[verifier::external_body]
fn toml_get_int(text: &str, key: &str) -> (r: Option<i64>)
    ensures
        r == toml_int_value(text@, key@),
{
    config::Config::builder()
        .add_source(config::File::from_str(text, config::FileFormat::Toml))
        .build()
        .ok()
        .and_then(|c| c.get_int(key).ok())
}

/// Relies on `config::Config::builder`, `config::File::from_str`,
/// `ConfigBuilder::build` and `Config::get_bool`: the boolean value at a
/// dotted key of the TOML text; deterministic in the text and the key.
#[verifier::external_body]
fn toml_get_bool(text: &str, key: &str) -> (r: Option<bool>)
    ensures
        r == toml_bool_value(text@, key@),
{
    config::Config::builder()
        .add_source(config::File::from_str(text, config::FileFormat::Toml))
        .build()
        .ok()
        .and_then(|c| c.get_bool(key).ok())
}

/// The text parses into a configuration: the database url, server host and
/// server port are present and the port fits its range.
pub open spec fn spec_config_parses(text: Seq<char>) -> bool {
    &&& toml_string_value(text, "database.url"@) is Some
    &&& toml_string_value(text, "server.host"@) is Some
    &&& toml_int_value(text, "server.port"@) matches Some(p) && 0 <= p <= 65535
}

/// The configuration the text describes: the required fields carry the
/// values at their keys, the base url is carried when present, and the
/// debug table counts exactly when it is complete and in range.
pub open spec fn spec_parsed_config(c: AppConfig, text: Seq<char>) -> bool {
    &&& Some(c.database.url@) == toml_string_value(text, "database.url"@)
    &&& Some(c.server.host@) == toml_string_value(text, "server.host"@)
    &&& Some(c.server.port as i64) == toml_int_value(text, "server.port"@)
    &&& c.server.base_url.deep_view() == toml_string_value(text, "server.base_url"@)
    &&& match c.debug {
        Some(d) => {
            &&& toml_bool_value(text, "debug.inject_sleep"@) == Some(d.inject_sleep)
            &&& toml_int_value(text, "debug.sleep_millis"@) == Some(d.sleep_millis as i64)
        },
        None => !({
            &&& toml_bool_value(text, "debug.inject_sleep"@) is Some
            &&& toml_int_value(text, "debug.sleep_millis"@) matches Some(m) && m >= 0
        }),
    }
}

impl AppConfig {
    /// Parses the configuration file's TOML text: the value the text
    /// describes, or `None` exactly when a required value is missing or the
    /// port is out of range.
    pub fn load(text: &str) -> (r: Option<AppConfig>)
        ensures
            r is Some <==> spec_config_parses(text@),
            r matches Some(c) ==> spec_parsed_config(c, text@),
    {
        let url = match toml_get_string(text, "database.url") {
            Some(u) => u,
            None => {
                return None;
            },
        };
        let host = match toml_get_string(text, "server.host") {
            Some(h) => h,
            None => {
                return None;
            },
        };
        let port_raw = match toml_get_int(text, "server.port") {
            Some(p) => p,
            None => {
                return None;
            },
        };
        if port_raw < 0 || port_raw > 65535 {
            return None;
        }
        let port = port_raw as u16;
        let base_url = toml_get_string(text, "server.base_url");
        let debug = match (
            toml_get_bool(text, "debug.inject_sleep"),
            toml_get_int(text, "debug.sleep_millis"),
        ) {
            (Some(inject_sleep), Some(millis)) => {
                if 0 <= millis {
                    Some(DebugConfig { inject_sleep, sleep_millis: millis as u64 })
                } else {
                    None
                }
            },
            _ => None,
        };
        Some(
            AppConfig {
                database: DatabaseConfig { url },
                server: ServerConfig { host, port, base_url },
                debug,
            },
        )
    }

    /// The configuration the text describes, or the built-in fallback when
    /// the text does not parse or misses a required value.
    pub fn load_or_default(text: &str) -> (r: AppConfig)
        ensures
            spec_config_parses(text@) ==> spec_parsed_config(r, text@),
            !spec_config_parses(text@) ==> spec_default_config(r),
    {
        match AppConfig::load(text) {
            Some(c) => c,
            None => AppConfig::default(),
        }
    }
}

} // verus!
