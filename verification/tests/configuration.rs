use geyser_redis_sink::config::{
    default_connection_timeout, default_max_connections, Config, ConfigError, RedisConfig,
};

fn loaded(text: &str) -> Config {
    match Config::load(text) {
        Ok(config) => config,
        Err(error) => panic!("the configuration was turned down: {:?}", error),
    }
}

fn refused(text: &str) -> bool {
    matches!(Config::load(text), Err(ConfigError::Malformed(_)))
}

fn refusal(text: &str) -> String {
    match Config::load(text) {
        Ok(config) => panic!("the configuration was taken: {:?}", config),
        Err(error) => error.detail().to_string(),
    }
}

#[test]
fn the_defaults_are_ten_connections_and_five_seconds() {
    assert_eq!(default_max_connections(), 10);
    assert_eq!(default_connection_timeout(), 5000);
}

#[test]
fn a_url_alone_loads_with_the_defaults() {
    let config = loaded(r#"{"redis": {"url": "redis://127.0.0.1:6379/"}}"#);
    assert_eq!(config.redis.url, "redis://127.0.0.1:6379/");
    assert_eq!(config.redis.max_connections, 10);
    assert_eq!(config.redis.connection_timeout_ms, 5000);
    assert_eq!(config.redis.database, 0);
}

#[test]
fn the_host_member_libpath_is_accepted_and_unused() {
    let config = loaded(
        r#"{"libpath": "/opt/plugin/libsink.so", "redis": {"url": "redis://store/"}}"#,
    );
    assert_eq!(config.redis.url, "redis://store/");
    assert_eq!(config.redis.max_connections, 10);
    assert_eq!(config.redis.connection_timeout_ms, 5000);
    assert_eq!(config.redis.database, 0);
}

#[test]
fn every_member_that_is_given_is_taken() {
    let config = loaded(
        r#"{
            "libpath": "x",
            "redis": {
                "url": "redis://store:7000/3",
                "max_connections": 64,
                "connection_timeout_ms": 250,
                "database": 3
            }
        }"#,
    );
    assert_eq!(config.redis.url, "redis://store:7000/3");
    assert_eq!(config.redis.max_connections, 64);
    assert_eq!(config.redis.connection_timeout_ms, 250);
    assert_eq!(config.redis.database, 3);
}

#[test]
fn the_limits_of_each_member_are_accepted() {
    let config = loaded(
        r#"{"redis": {"url": "", "max_connections": 4294967295,
            "connection_timeout_ms": 18446744073709551615,
            "database": -9223372036854775808}}"#,
    );
    assert_eq!(config.redis.url, "");
    assert_eq!(config.redis.max_connections, u32::MAX);
    assert_eq!(config.redis.connection_timeout_ms, u64::MAX);
    assert_eq!(config.redis.database, i64::MIN);
    let other = loaded(r#"{"redis": {"url": "u", "max_connections": 0, "database": 9223372036854775807}}"#);
    assert_eq!(other.redis.max_connections, 0);
    assert_eq!(other.redis.connection_timeout_ms, 5000);
    assert_eq!(other.redis.database, i64::MAX);
}

#[test]
fn unknown_members_are_left_unread() {
    let config = loaded(r#"{"redis": {"url": "redis://h/", "tls": true}, "extra": [1, 2]}"#);
    assert_eq!(config.redis.url, "redis://h/");
}

#[test]
fn a_missing_url_is_malformed() {
    assert!(refused(r#"{"redis": {}}"#));
    assert!(refused(r#"{"redis": {"max_connections": 5}}"#));
    assert!(refused(r#"{"libpath": "x", "redis": {"database": 1}}"#));
}

#[test]
fn a_missing_section_is_malformed() {
    assert!(refused(r#"{}"#));
    assert!(refused(r#"{"libpath": "x"}"#));
    assert!(refused(r#"{"url": "redis://h/"}"#));
    assert!(refused(r#"{"redis": "redis://h/"}"#));
    assert!(refused(r#"{"redis": ["redis://h/"]}"#));
    assert!(refused(r#"{"redis": null}"#));
}

#[test]
fn text_that_is_not_json_is_malformed() {
    assert!(refused(""));
    assert!(refused("redis://h/"));
    assert!(refused(r#"{"redis": {"url": "redis://h/"}"#));
    assert!(refused(r#"{"redis": {"url": "redis://h/"}} trailing"#));
    assert!(refused(r#"["redis"]"#));
    assert!(refused("7"));
}

#[test]
fn a_url_of_the_wrong_kind_is_malformed() {
    assert!(refused(r#"{"redis": {"url": 6379}}"#));
    assert!(refused(r#"{"redis": {"url": null}}"#));
    assert!(refused(r#"{"redis": {"url": ["redis://h/"]}}"#));
    assert!(refused(r#"{"redis": {"url": {"host": "h"}}}"#));
}

#[test]
fn optional_members_of_the_wrong_kind_are_malformed() {
    assert!(refused(r#"{"redis": {"url": "u", "max_connections": "10"}}"#));
    assert!(refused(r#"{"redis": {"url": "u", "max_connections": -1}}"#));
    assert!(refused(r#"{"redis": {"url": "u", "max_connections": 4294967296}}"#));
    assert!(refused(r#"{"redis": {"url": "u", "max_connections": 10.5}}"#));
    assert!(refused(r#"{"redis": {"url": "u", "max_connections": null}}"#));
    assert!(refused(r#"{"redis": {"url": "u", "connection_timeout_ms": -5}}"#));
    assert!(refused(r#"{"redis": {"url": "u", "connection_timeout_ms": "5000"}}"#));
    assert!(refused(r#"{"redis": {"url": "u", "connection_timeout_ms": 18446744073709551616}}"#));
    assert!(refused(r#"{"redis": {"url": "u", "database": 9223372036854775808}}"#));
    assert!(refused(r#"{"redis": {"url": "u", "database": "0"}}"#));
    assert!(refused(r#"{"redis": {"url": "u", "database": true}}"#));
}

#[test]
fn a_parsed_document_is_read_like_its_text() {
    let text = r#"{"redis": {"url": "redis://h/", "database": -2}}"#;
    let document: serde_json::Value = serde_json::from_str(text).expect("the text is JSON");
    let config = Config::from_document(&document).expect("the document is a configuration");
    assert_eq!(config.redis.url, "redis://h/");
    assert_eq!(config.redis.max_connections, 10);
    assert_eq!(config.redis.connection_timeout_ms, 5000);
    assert_eq!(config.redis.database, -2);
    let section: RedisConfig =
        RedisConfig::from_section(&document["redis"]).expect("the section is complete");
    assert_eq!(section.url, "redis://h/");
    assert_eq!(section.database, -2);
    match RedisConfig::from_section(&document) {
        Ok(section) => panic!("a section without url was taken: {:?}", section),
        Err(ConfigError::Malformed(detail)) => assert_eq!(detail, "missing field `redis.url`"),
    }
}

#[test]
fn text_that_is_not_json_is_turned_down_in_the_words_of_the_parser() {
    for text in ["", "not json", r#"{"redis": {"url": "redis://h/"}"#, "[1, 2", "{} {}"] {
        let error = serde_json::from_str::<serde_json::Value>(text).expect_err("no JSON");
        assert_eq!(refusal(text), format!("{:?}", error));
    }
    assert_eq!(
        refusal("not json"),
        "Error(\"expected ident\", line: 1, column: 2)"
    );
}

#[test]
fn each_refusal_names_the_member_at_fault() {
    assert_eq!(refusal(r#"{"libpath": "x"}"#), "missing field `redis`");
    assert_eq!(refusal(r#"[]"#), "missing field `redis`");
    assert_eq!(refusal(r#"{"redis": {}}"#), "missing field `redis.url`");
    assert_eq!(refusal(r#"{"redis": "redis://h/"}"#), "missing field `redis.url`");
    assert_eq!(
        refusal(r#"{"redis": {"url": 6379}}"#),
        "field `redis.url` is not a string"
    );
    assert_eq!(
        refusal(r#"{"redis": {"url": "u", "max_connections": 4294967296}}"#),
        "field `redis.max_connections` is not an integer from 0 to 4294967295"
    );
    assert_eq!(
        refusal(r#"{"redis": {"url": "u", "connection_timeout_ms": -1}}"#),
        "field `redis.connection_timeout_ms` is not an integer from 0 to 18446744073709551615"
    );
    assert_eq!(
        refusal(r#"{"redis": {"url": "u", "database": 1.5}}"#),
        "field `redis.database` is not an integer from -9223372036854775808 to 9223372036854775807"
    );
}

#[test]
fn the_first_member_at_fault_is_the_one_named() {
    assert_eq!(
        refusal(r#"{"redis": {"max_connections": "x", "database": "y"}}"#),
        "missing field `redis.url`"
    );
    assert_eq!(
        refusal(r#"{"redis": {"url": "u", "database": "y", "max_connections": "x"}}"#),
        "field `redis.max_connections` is not an integer from 0 to 4294967295"
    );
    assert_eq!(
        refusal(r#"{"redis": {"url": "u", "database": "y", "connection_timeout_ms": "x"}}"#),
        "field `redis.connection_timeout_ms` is not an integer from 0 to 18446744073709551615"
    );
}

#[test]
fn payloads_that_differ_in_libpath_alone_load_alike() {
    let first = loaded(r#"{"libpath": "/a.so", "redis": {"url": "redis://h/", "database": 2}}"#);
    let second = loaded(r#"{"libpath": "/b.so", "redis": {"url": "redis://h/", "database": 2}}"#);
    assert_eq!(first.redis.url, second.redis.url);
    assert_eq!(first.redis.max_connections, second.redis.max_connections);
    assert_eq!(first.redis.connection_timeout_ms, second.redis.connection_timeout_ms);
    assert_eq!(first.redis.database, second.redis.database);
}
