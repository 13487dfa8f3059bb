use geyser_redis_sink::config::Config;
use geyser_redis_sink::connection::connect;
use geyser_redis_sink::encoder::{encode, StoreRecord};
use geyser_redis_sink::publisher::{PublishError, Publisher};
use std::collections::BTreeMap;

type Store = BTreeMap<String, BTreeMap<String, String>>;

fn config(url: &str, timeout: u64) -> Config {
    let text = format!(
        r#"{{"redis": {{"url": "{}", "connection_timeout_ms": {}}}}}"#,
        url, timeout
    );
    Config::load(&text).expect("the configuration is well formed")
}

fn publisher(timeout: u64) -> Publisher {
    let config = config("redis://127.0.0.1:6379/", timeout);
    let client = connect(&config).expect("the URL is a store URL");
    Publisher::new(client, &config)
}

/// Sets the fields of a record in the hash under its key.
fn write(store: &mut Store, record: &StoreRecord) {
    let hash = store.entry(record.key.clone()).or_default();
    for (name, value) in &record.fields {
        hash.insert(name.clone(), value.clone());
    }
}

#[test]
fn a_store_url_gives_a_client() {
    assert!(connect(&config("redis://127.0.0.1/", 1)).is_ok());
    assert!(connect(&config("redis://store.internal:7000/2", 1)).is_ok());
}

#[test]
fn the_client_is_the_one_for_the_configured_address() {
    let client = connect(&config("redis://store.internal:7000/2", 1)).expect("a store URL");
    let info = client.get_connection_info();
    assert_eq!(info.addr().to_string(), "store.internal:7000");
    assert_eq!(info.redis_settings().db(), 2);
    let other = connect(&config("redis://127.0.0.1/", 1)).expect("a store URL");
    assert_eq!(other.get_connection_info().addr().to_string(), "127.0.0.1:6379");
}

#[test]
fn a_url_that_is_no_store_url_gives_a_connection_error() {
    for url in ["definitely not a url", "http://127.0.0.1/", "redis://127.0.0.1/x", "redis://0.0.0.0/"] {
        let expected = redis::Client::open(url).expect_err("no store URL").to_string();
        match connect(&config(url, 1)) {
            Ok(_) => panic!("a client was made from {}", url),
            Err(error) => assert_eq!(error.message, expected),
        }
    }
    match connect(&config("definitely not a url", 1)) {
        Ok(_) => panic!("a client was made without a URL"),
        Err(error) => assert_eq!(error.message, "Redis URL did not parse - InvalidClientConfig"),
    }
    assert!(connect(&config("http://127.0.0.1/", 1)).is_err());
    assert!(connect(&config("", 1)).is_err());
    assert!(connect(&config("redis://127.0.0.1/not-a-number", 1)).is_err());
}

#[test]
fn the_publisher_takes_its_timeout_from_the_configuration() {
    assert_eq!(publisher(5000).shutdown_timeout_ms(), 5000);
    assert_eq!(publisher(1).shutdown_timeout_ms(), 1);
    assert_eq!(publisher(u64::MAX).shutdown_timeout_ms(), u64::MAX);
}

#[test]
fn with_a_connection_the_record_is_handed_out_for_writing() {
    let publisher = publisher(5000);
    let next = publisher.update_account_info(&[1, 2, 3], 42, 7, Ok::<u8, String>(9));
    match next {
        Ok((handle, record)) => {
            assert_eq!(handle, 9);
            assert_eq!(record.key, "account:Ldp:7");
            assert_eq!(
                record.fields,
                vec![
                    ("lamports".to_string(), "42".to_string()),
                    ("slot".to_string(), "7".to_string())
                ]
            );
        }
        Err(error) => panic!("the update was refused: {:?}", error),
    }
}

#[test]
fn without_a_connection_nothing_is_written_and_the_message_is_kept() {
    let publisher = publisher(5000);
    let next = publisher.update_account_info(
        &[1, 2, 3],
        42,
        7,
        Err::<(), String>("Connection refused (os error 111)".to_string()),
    );
    match next {
        Ok(_) => panic!("a record was handed out without a connection"),
        Err(PublishError::Store(message)) => {
            assert_eq!(message, "Connection refused (os error 111)")
        }
    }
}

#[test]
fn the_answer_of_the_store_decides_the_result() {
    assert!(Publisher::write_outcome(Ok(())).is_ok());
    match Publisher::write_outcome(Err("broken pipe".to_string())) {
        Ok(()) => panic!("a failed write was reported as done"),
        Err(PublishError::Store(message)) => assert_eq!(message, "broken pipe"),
    }
}

#[test]
fn recording_twice_leaves_what_recording_once_leaves() {
    let mut once = Store::new();
    write(&mut once, &encode(&[1, 2, 3], 42, 7));
    let mut twice = Store::new();
    write(&mut twice, &encode(&[1, 2, 3], 42, 7));
    write(&mut twice, &encode(&[1, 2, 3], 42, 7));
    assert_eq!(once, twice);
    assert_eq!(once.len(), 1);
    assert_eq!(once["account:Ldp:7"]["lamports"], "42");
    assert_eq!(once["account:Ldp:7"]["slot"], "7");
}

#[test]
fn a_later_balance_at_the_same_position_overwrites() {
    let mut store = Store::new();
    write(&mut store, &encode(&[1, 2, 3], 42, 7));
    write(&mut store, &encode(&[1, 2, 3], 43, 7));
    assert_eq!(store.len(), 1);
    assert_eq!(store["account:Ldp:7"]["lamports"], "43");
}

#[test]
fn positions_of_one_account_are_kept_apart() {
    let mut store = Store::new();
    write(&mut store, &encode(&[1, 2, 3], 42, 7));
    write(&mut store, &encode(&[1, 2, 3], 50, 8));
    assert_eq!(store.len(), 2);
    assert_eq!(store["account:Ldp:7"]["lamports"], "42");
    assert_eq!(store["account:Ldp:8"]["lamports"], "50");
}

#[test]
fn distinct_accounts_leave_distinct_entries_in_any_order() {
    let identities: Vec<[u8; 4]> = (0u8..50).map(|i| [i, 1, 2, 3]).collect();
    let mut forward = Store::new();
    for (i, identity) in identities.iter().enumerate() {
        write(&mut forward, &encode(identity, i as u64, 99));
    }
    let mut backward = Store::new();
    for (i, identity) in identities.iter().enumerate().rev() {
        write(&mut backward, &encode(identity, i as u64, 99));
    }
    assert_eq!(forward.len(), 50);
    assert_eq!(forward, backward);
}
