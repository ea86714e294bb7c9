//! The holder of the connection to the storage engine, and the settings
//! that a connection is opened with.

use std::sync::Arc;
use vstd::prelude::*;
use vstd::string::StringExecFns;
use crate::infrastructure::datastore::connection::Connection;

verus! {

/// Hands out the connection that repositories and transaction managers are
/// built on. Nothing is promised about what it hands out.
pub trait DBClient {
    type Connection: Connection;

    /// The connection to the storage engine.
    fn get_connection(&self) -> Arc<Self::Connection>;
}

/// What a connection pool is opened with.
#[derive(Debug, Clone, PartialEq, Eq)]
pub struct ConnectionSettings {
    /// Where the database is and who connects.
    pub url: String,
    /// The most connections the pool holds.
    pub max_connections: u32,
    /// The fewest connections the pool holds.
    pub min_connections: u32,
    /// How many seconds an idle connection is kept.
    pub idle_timeout_secs: u64,
    /// Whether statements are logged.
    pub sqlx_logging: bool,
}

/// The most connections a pool holds where nothing else is asked for.
pub const DEFAULT_MAX_CONNECTIONS: u32 = 10;

/// The fewest connections a pool holds where nothing else is asked for.
pub const DEFAULT_MIN_CONNECTIONS: u32 = 0;

/// The seconds an idle connection is kept where nothing else is asked for.
pub const DEFAULT_IDLE_TIMEOUT_SECS: u64 = 10;

/// The address of database `name` on `host` at `port`, for `user` with
/// `password`.
pub open spec fn database_url_of(
    user: Seq<char>,
    password: Seq<char>,
    host: Seq<char>,
    port: Seq<char>,
    name: Seq<char>,
) -> Seq<char> {
    "postgresql://"@ + user + ":"@ + password + "@"@ + host + ":"@ + port + "/"@ + name
}

/// Writes the address of a database out.
pub fn database_url(user: &str, password: &str, host: &str, port: &str, name: &str) -> (url:
    String)
    ensures
        url@ == database_url_of(user@, password@, host@, port@, name@),
{
    let mut url = String::from_str("postgresql://");
    url.append(user);
    url.append(":");
    url.append(password);
    url.append("@");
    url.append(host);
    url.append(":");
    url.append(port);
    url.append("/");
    url.append(name);
    url
}

/// The value that was asked for, or `default` where none was.
pub open spec fn asked_or<T>(asked: Option<T>, default: T) -> T {
    match asked {
        Some(value) => value,
        None => default,
    }
}

/// The settings for the database at `url`: each value that was asked for,
/// and the default in place of each that was not. Statements are logged
/// only where that was asked for.
pub open spec fn connection_settings_of(
    url: String,
    max_connections: Option<u32>,
    min_connections: Option<u32>,
    idle_timeout_secs: Option<u64>,
    sqlx_logging: Option<bool>,
) -> ConnectionSettings {
    ConnectionSettings {
        url,
        max_connections: asked_or(max_connections, DEFAULT_MAX_CONNECTIONS),
        min_connections: asked_or(min_connections, DEFAULT_MIN_CONNECTIONS),
        idle_timeout_secs: asked_or(idle_timeout_secs, DEFAULT_IDLE_TIMEOUT_SECS),
        sqlx_logging: asked_or(sqlx_logging, false),
    }
}

/// Fills the settings for the database at `url` in.
pub fn connection_settings(
    url: String,
    max_connections: Option<u32>,
    min_connections: Option<u32>,
    idle_timeout_secs: Option<u64>,
    sqlx_logging: Option<bool>,
) -> (settings: ConnectionSettings)
    ensures
        settings == connection_settings_of(
            url,
            max_connections,
            min_connections,
            idle_timeout_secs,
            sqlx_logging,
        ),
{
    ConnectionSettings {
        url,
        max_connections: match max_connections {
            Some(asked) => asked,
            None => DEFAULT_MAX_CONNECTIONS,
        },
        min_connections: match min_connections {
            Some(asked) => asked,
            None => DEFAULT_MIN_CONNECTIONS,
        },
        idle_timeout_secs: match idle_timeout_secs {
            Some(asked) => asked,
            None => DEFAULT_IDLE_TIMEOUT_SECS,
        },
        sqlx_logging: match sqlx_logging {
            Some(asked) => asked,
            None => false,
        },
    }
}

} // verus!
