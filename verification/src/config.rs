//! Connection parameters of the store, and how they are read from a JSON
//! document.
//!
//! A document is accepted when it is an object with a member `redis` that
//! holds a string `url`. Beside `url` the section may hold `max_connections`,
//! `connection_timeout_ms` and `database`; each is optional, and where one is
//! present it must be an integer that its type can hold. Every other member,
//! the host's own `libpath` among them, is left unread.
//!
//! A document that is turned down is turned down with a message: the
//! parser's own where the text is not JSON, and otherwise the name of the
//! first member, in the order above, that is missing or holds the wrong kind
//! of value.

use crate::json::{
    json_document, json_model, member_of, parse_document, parse_error_text, signed_of, text_of,
    unsigned_of, JsonModel,
};
use vstd::prelude::*;
use vstd::string::StringExecFns;

verus! {

/// What was loaded for the plugin as a whole.
#[derive(Debug)]
pub struct Config {
    pub redis: RedisConfig,
}

/// How to reach the store.
#[derive(Debug)]
pub struct RedisConfig {
    pub url: String,
    pub max_connections: u32,
    pub connection_timeout_ms: u64,
    pub database: i64,
}

/// Why a configuration was turned down.
#[derive(Debug)]
pub enum ConfigError {
    /// The text is not JSON, a required member is missing, or a member holds
    /// a value of the wrong kind. The message says which.
    Malformed(String),
}

impl ConfigError {
    /// The message of the refusal.
    pub open spec fn spec_detail(&self) -> Seq<char> {
        match self {
            ConfigError::Malformed(detail) => detail@,
        }
    }

    /// The message of the refusal.
    pub fn detail(&self) -> (text: &str)
        ensures
            text@ == self.spec_detail(),
    {
        match self {
            ConfigError::Malformed(detail) => detail.as_str(),
        }
    }
}

pub struct RedisConfigView {
    pub url: Seq<char>,
    pub max_connections: u32,
    pub connection_timeout_ms: u64,
    pub database: i64,
}

pub struct ConfigView {
    pub redis: RedisConfigView,
}

impl View for RedisConfig {
    type V = RedisConfigView;

    open spec fn view(&self) -> RedisConfigView {
        RedisConfigView {
            url: self.url@,
            max_connections: self.max_connections,
            connection_timeout_ms: self.connection_timeout_ms,
            database: self.database,
        }
    }
}

impl View for Config {
    type V = ConfigView;

    open spec fn view(&self) -> ConfigView {
        ConfigView { redis: self.redis@ }
    }
}

/// Pool size used when the configuration names none.
pub open spec fn spec_default_max_connections() -> u32 {
    10
}

/// Connection timeout, in milliseconds, used when the configuration names none.
pub open spec fn spec_default_connection_timeout() -> u64 {
    5000
}

/// Logical database used when the configuration names none.
pub open spec fn spec_default_database() -> i64 {
    0
}

#[verifier::when_used_as_spec(spec_default_max_connections)]
pub fn default_max_connections() -> (n: u32)
    ensures
        n == spec_default_max_connections(),
{
    10
}

#[verifier::when_used_as_spec(spec_default_connection_timeout)]
pub fn default_connection_timeout() -> (ms: u64)
    ensures
        ms == spec_default_connection_timeout(),
{
    5000
}

/// The integer that `section` gives for the optional member `name`: `default`
/// where the member is absent, the member's value where it is an integer
/// within `low ..= high`, and `None` where it is anything else.
pub open spec fn optional_integer(
    section: JsonModel,
    name: Seq<char>,
    default: int,
    low: int,
    high: int,
) -> Option<int> {
    match section.member(name) {
        None => Some(default),
        Some(value) => value.integer_within(low, high),
    }
}

/// The store parameters that the `redis` section of a document describes,
/// or the message with which the section is turned down.
pub open spec fn redis_of_section(section: JsonModel) -> Result<RedisConfigView, Seq<char>> {
    let max_connections = optional_integer(
        section,
        "max_connections"@,
        spec_default_max_connections() as int,
        0,
        u32::MAX as int,
    );
    let connection_timeout_ms = optional_integer(
        section,
        "connection_timeout_ms"@,
        spec_default_connection_timeout() as int,
        0,
        u64::MAX as int,
    );
    let database = optional_integer(
        section,
        "database"@,
        spec_default_database() as int,
        i64::MIN as int,
        i64::MAX as int,
    );
    match section.member("url"@) {
        None => Err("missing field `redis.url`"@),
        Some(value) => match value.text() {
            None => Err("field `redis.url` is not a string"@),
            Some(url) => if max_connections is None {
                Err("field `redis.max_connections` is not an integer from 0 to 4294967295"@)
            } else if connection_timeout_ms is None {
                Err(
                    "field `redis.connection_timeout_ms` is not an integer from 0 to 18446744073709551615"@,
                )
            } else if database is None {
                Err(
                    "field `redis.database` is not an integer from -9223372036854775808 to 9223372036854775807"@,
                )
            } else {
                Ok(
                    RedisConfigView {
                        url,
                        max_connections: max_connections->0 as u32,
                        connection_timeout_ms: connection_timeout_ms->0 as u64,
                        database: database->0 as i64,
                    },
                )
            },
        },
    }
}

/// The configuration that a parsed document describes, or the message with
/// which the document is turned down.
pub open spec fn config_of_document(document: JsonModel) -> Result<ConfigView, Seq<char>> {
    match document.member("redis"@) {
        Some(section) => match redis_of_section(section) {
            Ok(redis) => Ok(ConfigView { redis }),
            Err(detail) => Err(detail),
        },
        None => Err("missing field `redis`"@),
    }
}

/// The configuration that a text describes, or the message with which the
/// text is turned down.
pub open spec fn config_of_text(text: Seq<char>) -> Result<ConfigView, Seq<char>> {
    match json_document(text) {
        Ok(document) => config_of_document(document),
        Err(detail) => Err(detail),
    }
}

/// What a loaded configuration, or the refusal to load one, stands for.
pub open spec fn loaded_view(loaded: Result<Config, ConfigError>) -> Result<
    ConfigView,
    Seq<char>,
> {
    match loaded {
        Ok(config) => Ok(config@),
        Err(error) => Err(error.spec_detail()),
    }
}

/// The same for the `redis` section alone.
pub open spec fn section_view(read: Result<RedisConfig, ConfigError>) -> Result<
    RedisConfigView,
    Seq<char>,
> {
    match read {
        Ok(redis) => Ok(redis@),
        Err(error) => Err(error.spec_detail()),
    }
}

/// Reads the optional unsigned member `name` of `section`.
fn optional_unsigned(section: &serde_json::Value, name: &str, default: u64) -> (found: Option<u64>)
    ensures
        found matches Some(n) ==> optional_integer(
            json_model(*section),
            name@,
            default as int,
            0,
            u64::MAX as int,
        ) == Some(n as int),
        found is None ==> optional_integer(
            json_model(*section),
            name@,
            default as int,
            0,
            u64::MAX as int,
        ) is None,
{
    match member_of(section, name) {
        None => Some(default),
        Some(value) => unsigned_of(value),
    }
}

/// Reads the optional signed member `name` of `section`.
fn optional_signed(section: &serde_json::Value, name: &str, default: i64) -> (found: Option<i64>)
    ensures
        found matches Some(n) ==> optional_integer(
            json_model(*section),
            name@,
            default as int,
            i64::MIN as int,
            i64::MAX as int,
        ) == Some(n as int),
        found is None ==> optional_integer(
            json_model(*section),
            name@,
            default as int,
            i64::MIN as int,
            i64::MAX as int,
        ) is None,
{
    match member_of(section, name) {
        None => Some(default),
        Some(value) => signed_of(value),
    }
}

/// A refusal with the given message.
fn malformed(detail: &str) -> (error: ConfigError)
    ensures
        error.spec_detail() == detail@,
{
    ConfigError::Malformed(String::from_str(detail))
}

impl RedisConfig {
    /// Reads the store parameters from the `redis` section of a document,
    /// filling in the defaults for what the section leaves out.
    pub fn from_section(section: &serde_json::Value) -> (read: Result<RedisConfig, ConfigError>)
        ensures
            section_view(read) == redis_of_section(json_model(*section)),
    {
        let url = match member_of(section, "url") {
            None => {
                return Err(malformed("missing field `redis.url`"));
            },
            Some(value) => match text_of(value) {
                None => {
                    return Err(malformed("field `redis.url` is not a string"));
                },
                Some(url) => url,
            },
        };
        let max_connections = match optional_unsigned(
            section,
            "max_connections",
            default_max_connections() as u64,
        ) {
            Some(n) if n <= u32::MAX as u64 => n as u32,
            _ => {
                return Err(
                    malformed(
                        "field `redis.max_connections` is not an integer from 0 to 4294967295",
                    ),
                );
            },
        };
        let connection_timeout_ms = match optional_unsigned(
            section,
            "connection_timeout_ms",
            default_connection_timeout(),
        ) {
            Some(n) => n,
            None => {
                return Err(
                    malformed(
                        "field `redis.connection_timeout_ms` is not an integer from 0 to 18446744073709551615",
                    ),
                );
            },
        };
        let database = match optional_signed(section, "database", 0) {
            Some(n) => n,
            None => {
                return Err(
                    malformed(
                        "field `redis.database` is not an integer from -9223372036854775808 to 9223372036854775807",
                    ),
                );
            },
        };
        Ok(RedisConfig { url: url.to_owned(), max_connections, connection_timeout_ms, database })
    }
}

impl Config {
    /// Reads the configuration from a parsed document.
    pub fn from_document(document: &serde_json::Value) -> (read: Result<Config, ConfigError>)
        ensures
            loaded_view(read) == config_of_document(json_model(*document)),
    {
        match member_of(document, "redis") {
            Some(section) => match RedisConfig::from_section(section) {
                Ok(redis) => Ok(Config { redis }),
                Err(error) => Err(error),
            },
            None => Err(malformed("missing field `redis`")),
        }
    }

    /// Reads the configuration from the text of a JSON document.
    ///
    /// The text is parsed by `serde_json`; which members are required, which
    /// are optional and what the defaults are is decided here.
    pub fn load(text: &str) -> (loaded: Result<Config, ConfigError>)
        ensures
            loaded_view(loaded) == config_of_text(text@),
    {
        match parse_document(text) {
            Ok(document) => Config::from_document(&document),
            Err(error) => Err(ConfigError::Malformed(parse_error_text(&error))),
        }
    }
}

/// A document whose `redis` section holds a string `url` and none of the
/// optional members is a configuration with that URL and the defaults.
pub proof fn lemma_defaults_fill_absent_members(
    document: JsonModel,
    section: JsonModel,
    url: Seq<char>,
)
    requires
        document.member("redis"@) == Some(section),
        section.member("url"@) == Some(JsonModel::Text(url)),
        section.member("max_connections"@) is None,
        section.member("connection_timeout_ms"@) is None,
        section.member("database"@) is None,
    ensures
        config_of_document(document) == Ok::<ConfigView, Seq<char>>(
            ConfigView {
                redis: RedisConfigView {
                    url,
                    max_connections: 10,
                    connection_timeout_ms: 5000,
                    database: 0,
                },
            },
        ),
{
}

/// A document without a `redis` section, or whose section holds no string
/// `url`, is no configuration, whatever else it holds.
pub proof fn lemma_missing_url_is_malformed(document: JsonModel)
    requires
        match document.member("redis"@) {
            Some(section) => match section.member("url"@) {
                Some(value) => value.text() is None,
                None => true,
            },
            None => true,
        },
    ensures
        config_of_document(document) is Err,
{
}

/// A text that is no JSON document is no configuration, and is turned down
/// with the parser's message.
pub proof fn lemma_unparsed_text_is_malformed(text: Seq<char>)
    requires
        json_document(text) is Err,
    ensures
        config_of_text(text) == Err::<ConfigView, Seq<char>>(json_document(text)->Err_0),
{
}

/// Members that the configuration does not name change nothing: two documents
/// with the same `redis` section are read alike.
pub proof fn lemma_other_members_are_unread(first: JsonModel, second: JsonModel)
    requires
        first.member("redis"@) == second.member("redis"@),
    ensures
        config_of_document(first) == config_of_document(second),
{
}

} // verus!
