//! The configuration of the service, put together from what the
//! environment and the configuration file hold.
//!
//! Reading the environment and the file is left to the caller; which value
//! wins, what the defaults are and what is refused is decided here.

use crate::text::chars_of;
use crate::validation::{bounded_digits, read_digits};
use vstd::prelude::*;
use vstd::string::*;

verus! {

/// The number of connections where none is asked for.
pub const DEFAULT_MAX_CONNECTIONS: u32 = 20;

/// The port where none is asked for.
pub const DEFAULT_PORT: u16 = 3000;

/// The address to listen on where none is asked for.
pub const DEFAULT_HOST: &'static str = "0.0.0.0";

/// How to reach the store.
#[derive(Clone, Debug, PartialEq)]
pub struct DatabaseConfig {
    pub database_url: String,
    pub max_connections: u32,
}

/// Where to listen.
#[derive(Clone, Debug, PartialEq)]
pub struct ServerConfig {
    pub host: String,
    pub port: u16,
}

/// The configuration of the service.
#[derive(Clone, Debug, PartialEq)]
pub struct AppConfig {
    pub database: DatabaseConfig,
    pub server: ServerConfig,
}

/// What was found in the environment, each variable as its text, and in the
/// configuration file, if there is one.
#[derive(Clone, Debug, PartialEq)]
pub struct Settings {
    pub database_url: Option<String>,
    pub max_connections: Option<String>,
    pub host: Option<String>,
    pub port: Option<String>,
    pub file: Option<ServerConfig>,
}

/// Why no configuration could be made.
#[derive(Clone, Copy, Debug, PartialEq, Eq, Structural)]
pub enum ConfigError {
    /// The address of the store is not set.
    MissingDatabaseUrl,
    /// The number of connections is no number of 32 bits.
    InvalidMaxConnections,
    /// The port is no number of 16 bits.
    InvalidPort,
}

/// The number that a text writes: digits, after a plus sign or without, of
/// a value that is at most `limit`.
pub open spec fn unsigned_value(s: Seq<char>, limit: int) -> Option<int> {
    if s.len() > 0 && s[0] == '+' {
        bounded_digits(s, 1, limit)
    } else {
        bounded_digits(s, 0, limit)
    }
}

/// The number of connections that the settings ask for.
pub open spec fn max_connections_of(text: Option<String>) -> Option<int> {
    match text {
        Some(s) => unsigned_value(s@, u32::MAX as int),
        None => Some(DEFAULT_MAX_CONNECTIONS as int),
    }
}

/// The port that the settings ask for, apart from the file.
pub open spec fn port_of(text: Option<String>) -> Option<int> {
    match text {
        Some(s) => unsigned_value(s@, u16::MAX as int),
        None => Some(DEFAULT_PORT as int),
    }
}

/// The host that the settings ask for, apart from the file.
pub open spec fn host_of(text: Option<String>) -> Seq<char> {
    match text {
        Some(s) => s@,
        None => DEFAULT_HOST@,
    }
}

/// Reads a number without sign, or with a plus sign, of at most `limit`.
pub fn read_unsigned(text: &str, limit: u32) -> (r: Option<u32>)
    ensures
        match r {
            Some(x) => unsigned_value(text@, limit as int) == Some(x as int),
            None => unsigned_value(text@, limit as int) is None,
        },
{
    let v = chars_of(text);
    let start: usize = if v.len() > 0 && v[0] == '+' {
        1
    } else {
        0
    };
    match read_digits(&v, start, limit as u64) {
        Some(x) => Some(x as u32),
        None => None,
    }
}

impl AppConfig {
    /// What the settings come to: the error of the first setting that is
    /// missing or wrong, in the order store address, connections, port;
    /// else the configuration.
    pub open spec fn failure(settings: Settings) -> Option<ConfigError> {
        if settings.database_url is None {
            Some(ConfigError::MissingDatabaseUrl)
        } else if max_connections_of(settings.max_connections) is None {
            Some(ConfigError::InvalidMaxConnections)
        } else if settings.file is None && port_of(settings.port) is None {
            Some(ConfigError::InvalidPort)
        } else {
            None
        }
    }

    /// Puts the configuration together. The store address is required. The
    /// number of connections is 20 where it is not set. Host and port come
    /// from the file where there is one; else from the environment, with
    /// `0.0.0.0` and 3000 where they are not set.
    pub fn from_settings(settings: Settings) -> (r: Result<AppConfig, ConfigError>)
        ensures
            match r {
                Ok(config) => {
                    &&& Self::failure(settings) is None
                    &&& Some(config.database.database_url) == settings.database_url
                    &&& Some(config.database.max_connections as int) == max_connections_of(
                        settings.max_connections,
                    )
                    &&& match settings.file {
                        Some(file) => config.server == file,
                        None => config.server.host@ == host_of(settings.host) && Some(
                            config.server.port as int,
                        ) == port_of(settings.port),
                    }
                },
                Err(e) => Self::failure(settings) == Some(e),
            },
    {
        let database_url = match settings.database_url {
            Some(url) => url,
            None => {
                return Err(ConfigError::MissingDatabaseUrl);
            },
        };
        let max_connections = match &settings.max_connections {
            Some(text) => match read_unsigned(text.as_str(), u32::MAX) {
                Some(n) => n,
                None => {
                    return Err(ConfigError::InvalidMaxConnections);
                },
            },
            None => DEFAULT_MAX_CONNECTIONS,
        };
        let server = match settings.file {
            Some(file) => file,
            None => {
                let port = match &settings.port {
                    Some(text) => match read_unsigned(text.as_str(), 65535) {
                        Some(n) => n as u16,
                        None => {
                            return Err(ConfigError::InvalidPort);
                        },
                    },
                    None => DEFAULT_PORT,
                };
                let host = match settings.host {
                    Some(h) => h,
                    None => DEFAULT_HOST.to_owned(),
                };
                ServerConfig { host, port }
            },
        };
        Ok(AppConfig { database: DatabaseConfig { database_url, max_connections }, server })
    }
}

} // verus!
