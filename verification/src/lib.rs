//! Records account updates of a validator into a Redis-compatible store.
//!
//! The validator loads the plugin, notifies it of each account update, and
//! unloads it. This crate holds what the plugin decides: how a configuration is
//! read ([`config`]), which client serves the store ([`connection`]), under
//! which key and fields an update is stored ([`encoder`]), how one write
//! proceeds ([`publisher`]), what the writes amount to in the store
//! ([`store`]), and, in this file, the plugin's life cycle and what the
//! validator is told. Reading files, waiting for the network and the
//! validator's plugin interface are left to the program around it.

pub mod config;
pub mod connection;
pub mod decimal;
pub mod encoder;
pub mod json;
pub mod publisher;
pub mod store;

use crate::config::{config_of_text, Config, ConfigError};
use crate::connection::{connect, connected, ConnectionError};
use crate::publisher::{PublishError, Publisher};
use vstd::prelude::*;
use vstd::string::StringExecFns;

verus! {

/// The two states of the plugin.
#[derive(Debug, PartialEq, Eq, Structural, Clone, Copy)]
pub enum Lifecycle {
    /// No store client: nothing can be published.
    Unloaded,
    /// Loaded, with a publisher.
    Active,
}

/// An account as the validator hands it over, in one of the layouts that its
/// interface has had. Only the newest carries what is published.
#[derive(Debug, Clone, Copy)]
pub enum AccountInfoVersions<'a> {
    V0_0_1,
    V0_0_2,
    V0_0_3 { pubkey: &'a [u8], lamports: u64 },
}

/// One account update: who, how much, and at which slot.
#[derive(Debug, Clone, Copy)]
pub struct AccountUpdateEvent<'a> {
    pub identity: &'a [u8],
    pub balance: u64,
    pub position: u64,
}

/// An update that is ready to be published, and the publisher for it.
#[derive(Debug)]
pub struct PendingUpdate<'a> {
    pub publisher: &'a Publisher,
    pub event: AccountUpdateEvent<'a>,
}

/// Why the plugin could not be loaded.
#[derive(Debug)]
pub enum LoadError {
    /// The configuration was turned down.
    Config(ConfigError),
    /// No store client could be made from the configuration.
    Connection(ConnectionError),
}

/// What the validator is told when an account update was not recorded.
#[derive(Debug)]
pub enum CallbackError {
    /// The account came in the first layout, which is no longer served.
    UnsupportedV0_0_1,
    /// The account came in the second layout, which is no longer served.
    UnsupportedV0_0_2,
    /// The plugin is not loaded.
    PublisherUnavailable,
    /// The write failed; the message is the store's.
    AccountsUpdate(String),
}

impl CallbackError {
    /// The message that goes to the validator.
    pub open spec fn spec_message(self) -> Seq<char> {
        match self {
            CallbackError::UnsupportedV0_0_1 =>
                "ReplicaAccountInfoVersions::V0_0_1 unsupported, please upgrade your Solana node."@,
            CallbackError::UnsupportedV0_0_2 =>
                "ReplicaAccountInfoVersions::V0_0_2 unsupported, please upgrade your Solana node."@,
            CallbackError::PublisherUnavailable => "publisher is unavailable"@,
            CallbackError::AccountsUpdate(message) => message@,
        }
    }

    /// The message that goes to the validator.
    pub fn message(&self) -> (text: String)
        ensures
            text@ == self.spec_message(),
    {
        match self {
            CallbackError::UnsupportedV0_0_1 => String::from_str(
                "ReplicaAccountInfoVersions::V0_0_1 unsupported, please upgrade your Solana node.",
            ),
            CallbackError::UnsupportedV0_0_2 => String::from_str(
                "ReplicaAccountInfoVersions::V0_0_2 unsupported, please upgrade your Solana node.",
            ),
            CallbackError::PublisherUnavailable => String::from_str("publisher is unavailable"),
            CallbackError::AccountsUpdate(message) => message.clone(),
        }
    }
}

/// What the validator is told about a finished write.
pub open spec fn told(result: Result<(), CallbackError>) -> Result<(), Seq<char>> {
    match result {
        Ok(()) => Ok(()),
        Err(error) => Err(error.spec_message()),
    }
}

/// The plugin: unloaded, or active with its publisher.
#[derive(Debug)]
pub struct SimplePlugin {
    publisher: Option<Publisher>,
}

impl SimplePlugin {
    /// The publisher of an active plugin.
    pub closed spec fn spec_publisher(&self) -> Option<Publisher> {
        self.publisher
    }

    /// The state the plugin is in.
    pub open spec fn spec_state(&self) -> Lifecycle {
        if self.spec_publisher() is Some {
            Lifecycle::Active
        } else {
            Lifecycle::Unloaded
        }
    }

    /// The update that `account` at `slot` asks to publish, or why there is
    /// none. An account in an old layout is turned down before the plugin's
    /// state is looked at.
    pub open spec fn spec_update_account(
        &self,
        account: AccountInfoVersions<'_>,
        slot: u64,
    ) -> Result<(Publisher, Seq<u8>, u64, u64), CallbackError> {
        match account {
            AccountInfoVersions::V0_0_1 => Err(CallbackError::UnsupportedV0_0_1),
            AccountInfoVersions::V0_0_2 => Err(CallbackError::UnsupportedV0_0_2),
            AccountInfoVersions::V0_0_3 { pubkey, lamports } => match self.spec_publisher() {
                Some(publisher) => Ok((publisher, pubkey@, lamports, slot)),
                None => Err(CallbackError::PublisherUnavailable),
            },
        }
    }

    /// A plugin that is not loaded yet.
    pub fn new() -> (plugin: SimplePlugin)
        ensures
            plugin.spec_state() == Lifecycle::Unloaded,
    {
        SimplePlugin { publisher: None }
    }

    /// The state the plugin is in.
    #[verifier::when_used_as_spec(spec_state)]
    pub fn state(&self) -> (state: Lifecycle)
        ensures
            state == self.spec_state(),
    {
        match self.publisher {
            Some(_) => Lifecycle::Active,
            None => Lifecycle::Unloaded,
        }
    }

    /// Loads the plugin from the text of its configuration file.
    ///
    /// The plugin becomes active exactly when the text is a configuration and
    /// a store client can be made from its URL; its publisher then writes
    /// through that client. Otherwise the error says which of the two failed,
    /// in the words of whoever turned the text or the URL down, and the
    /// plugin stays as it was.
    pub fn on_load(&mut self, contents: &str) -> (loaded: Result<(), LoadError>)
        ensures
            match config_of_text(contents@) {
                Ok(config) => match connected(config.redis.url) {
                    Ok(client) => {
                        &&& loaded is Ok
                        &&& final(self).spec_publisher() matches Some(publisher)
                        &&& publisher.spec_client() == client
                        &&& publisher.spec_shutdown_timeout_ms()
                            == config.redis.connection_timeout_ms
                    },
                    Err(message) => {
                        &&& loaded matches Err(LoadError::Connection(error))
                        &&& error.text() == message
                        &&& *final(self) == *old(self)
                    },
                },
                Err(detail) => {
                    &&& loaded matches Err(LoadError::Config(error))
                    &&& error.spec_detail() == detail
                    &&& *final(self) == *old(self)
                },
            },
    {
        let config = match Config::load(contents) {
            Ok(config) => config,
            Err(error) => {
                return Err(LoadError::Config(error));
            },
        };
        let client = match connect(&config) {
            Ok(client) => client,
            Err(error) => {
                return Err(LoadError::Connection(error));
            },
        };
        self.publisher = Some(Publisher::new(client, &config));
        Ok(())
    }

    /// Unloads the plugin: the publisher is dropped, whatever it was doing.
    pub fn on_unload(&mut self)
        ensures
            final(self).spec_state() == Lifecycle::Unloaded,
    {
        self.publisher = None;
    }

    /// The publisher of an active plugin.
    pub fn unwrap_publisher(&self) -> (publisher: &Publisher)
        requires
            self.spec_publisher() is Some,
        ensures
            Some(*publisher) == self.spec_publisher(),
    {
        self.publisher.as_ref().unwrap()
    }

    /// The identity and the balance of an account in the layout that is
    /// served.
    pub fn unwrap_update_account<'a>(account: AccountInfoVersions<'a>) -> (info: (&'a [u8], u64))
        requires
            account is V0_0_3,
        ensures
            info.0@ == account->pubkey@,
            info.1 == account->lamports,
    {
        match account {
            AccountInfoVersions::V0_0_3 { pubkey, lamports } => (pubkey, lamports),
            _ => unreached(),
        }
    }

    /// Takes one notification of an account update and says what is to be
    /// published through which publisher, or why nothing is: an account in an
    /// old layout is turned down, and so is any account while the plugin is
    /// not loaded.
    pub fn update_account<'a>(&'a self, account: AccountInfoVersions<'a>, slot: u64) -> (pending:
        Result<PendingUpdate<'a>, CallbackError>)
        ensures
            match self.spec_update_account(account, slot) {
                Ok((publisher, identity, balance, position)) => {
                    &&& pending matches Ok(update)
                    &&& *update.publisher == publisher
                    &&& update.event.identity@ == identity
                    &&& update.event.balance == balance
                    &&& update.event.position == position
                },
                Err(error) => pending matches Err(same) && same == error,
            },
    {
        match account {
            AccountInfoVersions::V0_0_1 => {
                return Err(CallbackError::UnsupportedV0_0_1);
            },
            AccountInfoVersions::V0_0_2 => {
                return Err(CallbackError::UnsupportedV0_0_2);
            },
            AccountInfoVersions::V0_0_3 { .. } => {},
        }
        let (identity, balance) = SimplePlugin::unwrap_update_account(account);
        match self.state() {
            Lifecycle::Unloaded => Err(CallbackError::PublisherUnavailable),
            Lifecycle::Active => Ok(
                PendingUpdate {
                    publisher: self.unwrap_publisher(),
                    event: AccountUpdateEvent { identity, balance, position: slot },
                },
            ),
        }
    }

    /// Turns the result of a write into what the validator is told: success
    /// as it is, a failure with the store's own message.
    pub fn callback_result(written: Result<(), PublishError>) -> (result: Result<
        (),
        CallbackError,
    >)
        ensures
            told(result) == crate::publisher::published(written),
            result matches Err(error) ==> error is AccountsUpdate,
    {
        match written {
            Ok(()) => Ok(()),
            Err(PublishError::Store(message)) => Err(CallbackError::AccountsUpdate(message)),
        }
    }

    /// Account updates are asked for.
    pub fn account_data_notifications_enabled(&self) -> (enabled: bool)
        ensures
            enabled,
    {
        true
    }

    /// Transactions are asked for, though nothing is done with them.
    pub fn transaction_notifications_enabled(&self) -> (enabled: bool)
        ensures
            enabled,
    {
        true
    }

    /// Entries are not asked for.
    pub fn entry_notifications_enabled(&self) -> (enabled: bool)
        ensures
            !enabled,
    {
        false
    }

    /// The name under which the plugin is known to the validator.
    pub fn name(&self) -> (name: &'static str)
        ensures
            name@ == "SimplePlugin"@,
    {
        "SimplePlugin"
    }
}

} // verus!
