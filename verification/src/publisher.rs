//! Publishing one account update: what is written, and what the caller is
//! told.
//!
//! A call makes one attempt. It asks the client for a connection; if there is
//! none, nothing is written and the failure is reported. Otherwise one record
//! is written, and the store's answer decides the result. Waiting for the
//! connection and for the answer is the caller's part; the decisions between
//! them are made here.

use crate::config::Config;
use crate::encoder::{encodable, encode, encoded, StoreRecord};
use vstd::prelude::*;

verus! {

/// A write did not reach the store.
#[derive(Debug)]
pub enum PublishError {
    /// The store, or the way to it, failed with this message.
    Store(String),
}

impl PublishError {
    /// The message of the failure.
    pub open spec fn message(self) -> Seq<char> {
        match self {
            PublishError::Store(message) => message@,
        }
    }
}

/// What a finished call reports: success, or the message of the failure.
pub open spec fn outcome_of(reply: Result<(), String>) -> Result<(), Seq<char>> {
    match reply {
        Ok(()) => Ok(()),
        Err(message) => Err(message@),
    }
}

/// The same for a result that carries a [`PublishError`].
pub open spec fn published(result: Result<(), PublishError>) -> Result<(), Seq<char>> {
    match result {
        Ok(()) => Ok(()),
        Err(error) => Err(error.message()),
    }
}

/// Writes account updates through one store client.
#[derive(Debug)]
pub struct Publisher {
    client: redis::Client,
    shutdown_timeout_ms: u64,
}

impl Publisher {
    /// The client that writes go through.
    pub closed spec fn spec_client(&self) -> redis::Client {
        self.client
    }

    /// How long to wait for the store when shutting down, in milliseconds.
    pub closed spec fn spec_shutdown_timeout_ms(&self) -> u64 {
        self.shutdown_timeout_ms
    }

    /// A publisher that writes through `client` and takes its timeout from
    /// `config`.
    pub fn new(client: redis::Client, config: &Config) -> (publisher: Publisher)
        ensures
            publisher.spec_client() == client,
            publisher.spec_shutdown_timeout_ms() == config.redis.connection_timeout_ms,
    {
        Publisher { client, shutdown_timeout_ms: config.redis.connection_timeout_ms }
    }

    /// The client that writes go through.
    pub fn client(&self) -> (client: &redis::Client)
        ensures
            *client == self.spec_client(),
    {
        &self.client
    }

    /// How long to wait for the store when shutting down, in milliseconds.
    #[verifier::when_used_as_spec(spec_shutdown_timeout_ms)]
    pub fn shutdown_timeout_ms(&self) -> (ms: u64)
        ensures
            ms == self.spec_shutdown_timeout_ms(),
    {
        self.shutdown_timeout_ms
    }

    /// Decides what to do once the attempt to get a connection is over.
    ///
    /// With a connection, the record for the update is built and handed back
    /// together with the connection, to be written through it. Without one,
    /// the call is over: the failure is reported with the message it came
    /// with, and nothing is to be written.
    pub fn update_account_info<C>(
        &self,
        pubkey: &[u8],
        lamports: u64,
        slot: u64,
        connection: Result<C, String>,
    ) -> (next: Result<(C, StoreRecord), PublishError>)
        requires
            connection is Ok ==> encodable(pubkey@),
        ensures
            match connection {
                Ok(handle) => next matches Ok((same, record)) && same == handle && record@
                    == encoded(pubkey@, lamports, slot),
                Err(message) => next matches Err(error) && error.message() == message@,
            },
    {
        match connection {
            Ok(handle) => Ok((handle, encode(pubkey, lamports, slot))),
            Err(message) => Err(PublishError::Store(message)),
        }
    }

    /// The result of the call, given the store's answer to the write.
    pub fn write_outcome(reply: Result<(), String>) -> (result: Result<(), PublishError>)
        ensures
            published(result) == outcome_of(reply),
    {
        match reply {
            Ok(()) => Ok(()),
            Err(message) => Err(PublishError::Store(message)),
        }
    }
}

} // verus!
