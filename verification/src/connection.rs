//! The client of the store.
//!
//! A client is made once, when the plugin is loaded, from the configured URL.
//! Making it opens no connection: the `redis` crate only reads the URL, and
//! turns down one it cannot use. Connections are obtained from the client for
//! each write, outside this library.

use crate::config::Config;
use vstd::prelude::*;

verus! {

#[verifier::external_type_specification]
#[verifier::external_body]
pub struct ExClient(redis::Client);

#[verifier::external_type_specification]
#[verifier::external_body]
pub struct ExRedisError(redis::RedisError);

/// The store could not be set up from the configuration.
#[derive(Debug)]
pub struct ConnectionError {
    /// What the store client said.
    pub message: String,
}

impl ConnectionError {
    /// The characters of the message.
    pub open spec fn text(self) -> Seq<char> {
        self.message@
    }
}

/// What `redis::Client::open` makes of a URL: a client, or the error with
/// which it turns the URL down.
pub uninterp spec fn client_opened(url: Seq<char>) -> Result<redis::Client, redis::RedisError>;

/// The text that a `redis::RedisError` shows of itself.
pub uninterp spec fn redis_error_text(error: redis::RedisError) -> Seq<char>;

/// What connecting with this URL gives: the client for it, or the message of
/// the store client's refusal.
pub open spec fn connected(url: Seq<char>) -> Result<redis::Client, Seq<char>> {
    match client_opened(url) {
        Ok(client) => Ok(client),
        Err(error) => Err(redis_error_text(error)),
    }
}

/// What a client, or the refusal to make one, stands for.
pub open spec fn connection_view(made: Result<redis::Client, ConnectionError>) -> Result<
    redis::Client,
    Seq<char>,
> {
    match made {
        Ok(client) => Ok(client),
        Err(error) => Err(error.text()),
    }
}

/// Calls `redis::Client::open` with the URL as a string slice.
///
/// Trusted: the outcome depends on the URL alone, which the call parses
/// without reaching for the network; [`client_opened`] names it.
#[verifier::external_body]
fn open_client(url: &str) -> (opened: Result<redis::Client, redis::RedisError>)
    ensures
        opened == client_opened(url@),
{
    redis::Client::open(url)
}

/// Writes out a `redis::RedisError` through its `Display` form.
///
/// Trusted: the text depends on the error alone; it is what
/// [`redis_error_text`] names.
#[verifier::external_body]
fn error_text(error: &redis::RedisError) -> (text: String)
    ensures
        text@ == redis_error_text(*error),
{
    error.to_string()
}

/// Makes the store client for the address that `config` gives, or says in
/// the store client's words why none can be made.
pub fn connect(config: &Config) -> (made: Result<redis::Client, ConnectionError>)
    ensures
        connection_view(made) == connected(config.redis.url@),
{
    match open_client(config.redis.url.as_str()) {
        Ok(client) => Ok(client),
        Err(error) => Err(ConnectionError { message: error_text(&error) }),
    }
}

} // verus!
