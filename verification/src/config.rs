//! Process configuration.

use vstd::prelude::*;

verus! {

/// Where the service listens and which store it talks to.
#[derive(Debug)]
pub struct Config {
    pub host: String,
    pub port: String,
    pub db_url: String,
}

/// A setting that the environment did not provide.
#[derive(Debug, Clone, Copy, PartialEq, Eq, Structural)]
pub enum ConfigError {
    MissingHost,
    MissingPort,
    MissingDbUrl,
}

impl ConfigError {
    /// The text shown for this error.
    pub open spec fn spec_message(self) -> Seq<char> {
        match self {
            ConfigError::MissingHost => "HOST environment variable is not set"@,
            ConfigError::MissingPort => "PORT environment variable is not set"@,
            ConfigError::MissingDbUrl => "DB_URL environment variable is not set"@,
        }
    }

    /// The text shown for this error.
    pub fn message(&self) -> (text: String)
        ensures
            text@ == self.spec_message(),
    {
        match self {
            ConfigError::MissingHost => String::from_str("HOST environment variable is not set"),
            ConfigError::MissingPort => String::from_str("PORT environment variable is not set"),
            ConfigError::MissingDbUrl => String::from_str(
                "DB_URL environment variable is not set",
            ),
        }
    }
}

impl Config {
    /// Assembles the configuration from the three settings as the environment
    /// gave them. The first one missing, in the order host, port, store
    /// address, decides the error.
    pub fn setup(host: Option<String>, port: Option<String>, db_url: Option<String>) -> (result:
        Result<Config, ConfigError>)
        ensures
            host is None ==> result == Err::<Config, ConfigError>(ConfigError::MissingHost),
            host is Some && port is None ==> result == Err::<Config, ConfigError>(
                ConfigError::MissingPort,
            ),
            host is Some && port is Some && db_url is None ==> result == Err::<
                Config,
                ConfigError,
            >(ConfigError::MissingDbUrl),
            host is Some && port is Some && db_url is Some ==> result == Ok::<Config, ConfigError>(
                (Config { host: host->0, port: port->0, db_url: db_url->0 }),
            ),
    {
        let host = match host {
            Some(host) => host,
            None => { return Err(ConfigError::MissingHost); },
        };
        let port = match port {
            Some(port) => port,
            None => { return Err(ConfigError::MissingPort); },
        };
        let db_url = match db_url {
            Some(db_url) => db_url,
            None => { return Err(ConfigError::MissingDbUrl); },
        };
        Ok(Config { host, port, db_url })
    }
}

} // verus!
