//! Process configuration: loaded once, then passed to what needs it.

use vstd::prelude::*;
use vstd::string::*;
use crate::text::{parse_i64, parsed_i64};

verus! {

/// The port the service listens on.
pub const DEFAULT_PORT: u16 = 8000;

/// Seconds in one unit of `jwt_maxage`.
pub const SECONDS_PER_MAXAGE_UNIT: i64 = 3600;

/// The settings of the process.
#[derive(Debug)]
pub struct Config {
    pub database_url: String,
    pub jwt_secret: String,
    pub jwt_maxage: i64,
    pub port: u16,
}

/// The mathematical value of a `Config`.
pub struct ConfigView {
    pub database_url: Seq<char>,
    pub jwt_secret: Seq<char>,
    pub jwt_maxage: i64,
    pub port: u16,
}

impl View for Config {
    type V = ConfigView;

    open spec fn view(&self) -> ConfigView {
        ConfigView {
            database_url: self.database_url@,
            jwt_secret: self.jwt_secret@,
            jwt_maxage: self.jwt_maxage,
            port: self.port,
        }
    }
}

impl Clone for Config {
    fn clone(&self) -> (r: Config)
        ensures
            r@ == self@,
    {
        Config {
            database_url: self.database_url.clone(),
            jwt_secret: self.jwt_secret.clone(),
            jwt_maxage: self.jwt_maxage,
            port: self.port,
        }
    }
}

/// The validity of a session in seconds, where it can be held.
pub open spec fn validity_of(jwt_maxage: i64) -> Option<i64> {
    if i64::MIN <= jwt_maxage * SECONDS_PER_MAXAGE_UNIT <= i64::MAX {
        Some((jwt_maxage * SECONDS_PER_MAXAGE_UNIT) as i64)
    } else {
        None
    }
}

impl Config {
    /// The configuration from its three settings, on the default port.
    pub fn from_settings(database_url: String, jwt_secret: String, jwt_maxage: i64) -> (r: Config)
        ensures
            r@ == (ConfigView {
                database_url: database_url@,
                jwt_secret: jwt_secret@,
                jwt_maxage,
                port: DEFAULT_PORT,
            }),
    {
        Config { database_url, jwt_secret, jwt_maxage, port: DEFAULT_PORT }
    }

    /// The configuration from the values of its three variables, as they
    /// were read: `jwt_maxage` is a decimal number. `None` where it is not.
    pub fn from_vars(database_url: String, jwt_secret: String, jwt_maxage: &str) -> (r: Option<
        Config,
    >)
        ensures
            match parsed_i64(jwt_maxage@) {
                Some(maxage) => r matches Some(config) && config@ == (ConfigView {
                    database_url: database_url@,
                    jwt_secret: jwt_secret@,
                    jwt_maxage: maxage,
                    port: DEFAULT_PORT,
                }),
                None => r is None,
            },
    {
        match parse_i64(jwt_maxage) {
            Some(maxage) => Some(Config::from_settings(database_url, jwt_secret, maxage)),
            None => None,
        }
    }

    /// How long a session token stays valid, which is also the max-age of
    /// the cookie that carries it, in seconds; `None` where the setting is
    /// out of range.
    pub fn session_validity(&self) -> (r: Option<i64>)
        ensures
            r == validity_of(self.jwt_maxage),
    {
        self.jwt_maxage.checked_mul(SECONDS_PER_MAXAGE_UNIT)
    }
}

} // verus!
