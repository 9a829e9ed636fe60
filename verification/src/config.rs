//! The configuration the subsystem reads: tracker connection settings,
//! announce-key lifetime, importer parameters, and the secrets that must
//! never leave the process unmasked.

use vstd::prelude::*;

verus! {

/// Logging verbosity. `Off` is lower than every level; the others match
/// the usual log levels.
#[derive(Debug, Clone, Copy, PartialEq, Eq, PartialOrd, Ord, Hash, Structural)]
pub enum LogLevel {
    Off,
    Error,
    Warn,
    Info,
    Debug,
    Trace,
}

/// The tracker connection settings: the public base URL that personal
/// announce URLs are built on, the admin API URL and its token, and the
/// lifetime of issued announce keys.
#[derive(Debug, Clone)]
pub struct Tracker {
    pub url: String,
    pub api_url: String,
    pub token: String,
    pub token_valid_seconds: u64,
}

/// A database connection URL, with its password component held apart so
/// that it can be masked without re-parsing the URL.
#[derive(Debug, Clone)]
pub struct ConnectUrl {
    pub location: String,
    pub password: Option<String>,
}

/// The persistence-layer settings.
#[derive(Debug, Clone)]
pub struct DatabaseConfig {
    pub connect_url: ConnectUrl,
}

/// The authentication settings.
#[derive(Debug, Clone)]
pub struct Auth {
    pub secret_key: String,
}

/// The mail settings.
#[derive(Debug, Clone)]
pub struct Mail {
    pub password: String,
}

/// The statistics importer's schedule and fan-out parameters.
#[derive(Debug, Clone, Copy, PartialEq, Eq, Structural)]
pub struct ImporterConfig {
    pub interval_in_seconds: u64,
    pub max_in_flight: usize,
}

/// The whole configuration for the index, as far as this subsystem reads
/// it.
#[derive(Debug, Clone)]
pub struct Settings {
    pub log_level: Option<LogLevel>,
    pub tracker: Tracker,
    pub auth: Auth,
    pub database: DatabaseConfig,
    pub mail: Mail,
    pub tracker_statistics_importer: ImporterConfig,
}

impl Settings {
    /// Replaces the tracker admin API token, leaving everything else as
    /// it was.
    pub fn override_tracker_api_token(&mut self, token: String)
        ensures
            *final(self) == (Settings {
                tracker: (Tracker { token, ..old(self).tracker }),
                ..*old(self)
            }),
    {
        self.tracker.token = token;
    }

    /// Replaces the authentication secret key, leaving everything else as
    /// it was.
    pub fn override_auth_secret_key(&mut self, secret_key: String)
        ensures
            *final(self) == (Settings { auth: (Auth { secret_key }), ..*old(self) }),
    {
        self.auth.secret_key = secret_key;
    }

    /// Masks every secret in the settings with `***`: the tracker admin
    /// token, the database URL's password (when it has one), the mail
    /// password and the authentication secret key. Everything else is
    /// left as it was.
    pub fn remove_secrets(&mut self)
        ensures
            final(self).tracker.token@ == "***"@,
            final(self).auth.secret_key@ == "***"@,
            final(self).mail.password@ == "***"@,
            old(self).database.connect_url.password is Some ==> (final(self)
                .database.connect_url.password matches Some(p) && p@ == "***"@),
            old(self).database.connect_url.password is None ==> final(self)
                .database.connect_url.password is None,
            final(self).database.connect_url.location == old(self).database.connect_url.location,
            final(self).log_level == old(self).log_level,
            final(self).tracker.url == old(self).tracker.url,
            final(self).tracker.api_url == old(self).tracker.api_url,
            final(self).tracker.token_valid_seconds == old(self).tracker.token_valid_seconds,
            final(self).tracker_statistics_importer == old(self).tracker_statistics_importer,
    {
        self.tracker.token = String::from_str("***");
        if self.database.connect_url.password.is_some() {
            self.database.connect_url.password = Some(String::from_str("***"));
        }
        self.mail.password = String::from_str("***");
        self.auth.secret_key = String::from_str("***");
    }
}

} // verus!
