//! Verified core of a command-line client for the Plausible Analytics API.
//!
//! The library decides: which requests are made, what is stored, what is counted, what is printed.
//! Reading and writing files, sending requests and waiting is left to the program around it, which
//! hands in what came of it as plain values.

use client::ClientError;
use config::accounts::AccountStoreError;
use config::ConfigError;
use queue::WorkerError;
use rate_limit::RateLimitError;
use vstd::prelude::*;
use vstd::string::*;

pub mod cli;
pub mod client;
pub mod clock;
pub mod config;
pub mod json;
pub mod nonzero;
pub mod output;
pub mod queue;
pub mod rate_limit;
pub mod text;

verus! {

/// Everything that can go wrong in a command.
#[derive(Debug)]
pub enum Error {
    Config(ConfigError),
    Accounts(AccountStoreError),
    RateLimit(RateLimitError),
    Client(ClientError),
    Worker(WorkerError),
    Serialization(String),
    Runtime(String),
    NoDefaultAccount,
    InvalidInput(String),
}

impl Error {
    /// The message shown to the user.
    pub open spec fn text(self) -> Seq<char> {
        match self {
            Error::Config(e) => e.text(),
            Error::Accounts(e) => e.text(),
            Error::RateLimit(e) => e.text(),
            Error::Client(e) => e.text(),
            Error::Worker(e) => e.text(),
            Error::Serialization(e) => e@,
            Error::Runtime(e) => e@,
            Error::NoDefaultAccount =>
                "no default account configured; add an account or pass --account"@,
            Error::InvalidInput(e) => e@,
        }
    }

    /// Renders the message shown to the user.
    pub fn message(&self) -> (text: String)
        ensures
            text@ == self.text(),
    {
        match self {
            Error::Config(e) => e.message(),
            Error::Accounts(e) => e.message(),
            Error::RateLimit(e) => e.message(),
            Error::Client(e) => e.message(),
            Error::Worker(e) => e.message(),
            Error::Serialization(e) => e.clone(),
            Error::Runtime(e) => e.clone(),
            Error::NoDefaultAccount =>
                "no default account configured; add an account or pass --account".to_owned(),
            Error::InvalidInput(e) => e.clone(),
        }
    }
}

/// The message of an error is that of its cause; a missing default account is explained.
pub proof fn law_messages_are_those_of_their_causes(
    detail: String,
    config: ConfigError,
    accounts: AccountStoreError,
    limits: RateLimitError,
    client: ClientError,
    worker: WorkerError,
)
    ensures
        Error::Config(config).text() == config.text(),
        Error::Accounts(accounts).text() == accounts.text(),
        Error::RateLimit(limits).text() == limits.text(),
        Error::Client(client).text() == client.text(),
        Error::Worker(worker).text() == worker.text(),
        Error::Serialization(detail).text() == detail@,
        Error::Runtime(detail).text() == detail@,
        Error::InvalidInput(detail).text() == detail@,
        Error::NoDefaultAccount.text()
            == "no default account configured; add an account or pass --account"@,
{
}

} // verus!
