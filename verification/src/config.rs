//! Configuration: broker connection parameters and the application-state
//! builder.
//!
//! The process constructs these once at startup from environment text and
//! then shares them read-only. The builder collects the settings the
//! surrounding process needs and says exactly which of them are required,
//! which are defaulted, and to what.

use vstd::prelude::*;
use vstd::string::StringSliceAdditionalSpecFns;

use crate::parse::{dec_digits, dec_value, parse_port, parse_u64};

verus! {

/// The refresh-interval hint used when none is configured, in milliseconds.
pub const DEFAULT_REFRESH_INTERVAL_MS: u64 = 30000;

/// Immutable broker connection parameters, produced once at process start.
/// The refresh interval is an informational hint for the page that polls the
/// read API; the subscriber itself is event-driven.
#[derive(Clone, Debug)]
pub struct MqttConfig {
    pub host: String,
    pub port: u16,
    pub refresh_interval_ms: u64,
}

impl MqttConfig {
    /// A well-formed configuration names a real port: 1 to 65535.
    pub open spec fn wf(&self) -> bool {
        1 <= self.port
    }

    /// Connection parameters from already-validated values.
    pub fn new(host: String, port: u16, refresh_interval_ms: u64) -> (c: MqttConfig)
        requires
            1 <= port,
        ensures
            c.host@ == host@,
            c.port == port,
            c.refresh_interval_ms == refresh_interval_ms,
            c.wf(),
    {
        MqttConfig { host, port, refresh_interval_ms }
    }

    /// Connection parameters from configuration text: the port must be a
    /// decimal port number; the refresh interval, when configured at all,
    /// must be a decimal number of milliseconds, and defaults otherwise.
    pub fn from_settings(host: String, port_text: &str, refresh_text: Option<&str>) -> (r: Option<
        MqttConfig,
    >)
        ensures
            r matches Some(c) ==> {
                &&& c.host@ == host@
                &&& c.port == dec_value(port_text.spec_bytes())
                &&& match refresh_text {
                    Some(t) => c.refresh_interval_ms == dec_value(t.spec_bytes()),
                    None => c.refresh_interval_ms == DEFAULT_REFRESH_INTERVAL_MS,
                }
                &&& c.wf()
            },
            r is Some <==> {
                &&& dec_digits(port_text.spec_bytes())
                &&& 1 <= dec_value(port_text.spec_bytes()) <= 65535
                &&& match refresh_text {
                    Some(t) => dec_digits(t.spec_bytes()) && dec_value(t.spec_bytes()) <= u64::MAX,
                    None => true,
                }
            },
    {
        let port = match parse_port(port_text) {
            Some(p) => p,
            None => {
                return None;
            },
        };
        let refresh_interval_ms = match refresh_text {
            Some(t) => match parse_u64(t) {
                Some(ms) => ms,
                None => {
                    return None;
                },
            },
            None => DEFAULT_REFRESH_INTERVAL_MS,
        };
        Some(MqttConfig { host, port, refresh_interval_ms })
    }
}

/// Why the collected settings cannot build an application state: one of the
/// required service locations is missing.
#[derive(Clone, Copy, PartialEq, Eq, Structural, Debug)]
pub enum ConfigError {
    MissingPostgresUrl,
    MissingValkeyUrl,
    MissingManticoreUrl,
}

/// The validated settings the surrounding process connects with: every
/// required location present, the display name defaulted when unset.
#[derive(Debug)]
pub struct AppSettings {
    pub app_name: String,
    pub postgres_url: String,
    pub valkey_url: String,
    pub manticore_url: String,
}

/// Collects the application's settings one at a time before they are
/// validated into [`AppSettings`].
pub struct AppStateBuilder {
    pub app_name: Option<String>,
    pub postgres_url: Option<String>,
    pub valkey_url: Option<String>,
    pub manticore_url: Option<String>,
}

impl Default for AppStateBuilder {
    /// A builder with nothing set yet.
    fn default() -> (b: AppStateBuilder)
        ensures
            b.app_name is None,
            b.postgres_url is None,
            b.valkey_url is None,
            b.manticore_url is None,
    {
        AppStateBuilder { app_name: None, postgres_url: None, valkey_url: None, manticore_url: None }
    }
}

impl AppStateBuilder {
    /// A builder with nothing set yet.
    pub fn new() -> (b: Self)
        ensures
            b.app_name is None,
            b.postgres_url is None,
            b.valkey_url is None,
            b.manticore_url is None,
    {
        Self::default()
    }

    /// Set the application's display name; the other settings are kept.
    pub fn app_name(self, name: &str) -> (b: Self)
        ensures
            b.app_name matches Some(n) && n@ == name@,
            b.postgres_url == self.postgres_url,
            b.valkey_url == self.valkey_url,
            b.manticore_url == self.manticore_url,
    {
        Self { app_name: Some(name.to_owned()), ..self }
    }

    /// Set the relational-database location; the other settings are kept.
    pub fn postgres_url(self, url: String) -> (b: Self)
        ensures
            b.postgres_url == Some(url),
            b.app_name == self.app_name,
            b.valkey_url == self.valkey_url,
            b.manticore_url == self.manticore_url,
    {
        Self { postgres_url: Some(url), ..self }
    }

    /// Set the key/value-store location; the other settings are kept.
    pub fn valkey_url(self, url: String) -> (b: Self)
        ensures
            b.valkey_url == Some(url),
            b.app_name == self.app_name,
            b.postgres_url == self.postgres_url,
            b.manticore_url == self.manticore_url,
    {
        Self { valkey_url: Some(url), ..self }
    }

    /// Set the full-text-search location; the other settings are kept.
    pub fn manticore_url(self, url: String) -> (b: Self)
        ensures
            b.manticore_url == Some(url),
            b.app_name == self.app_name,
            b.postgres_url == self.postgres_url,
            b.valkey_url == self.valkey_url,
    {
        Self { manticore_url: Some(url), ..self }
    }

    /// Validate the collected settings. All three service locations are
    /// required — the first one missing is the error — and the display name
    /// falls back to a fixed default when unset.
    pub fn into_settings(self) -> (r: Result<AppSettings, ConfigError>)
        ensures
            r is Ok <==> self.postgres_url is Some && self.valkey_url is Some
                && self.manticore_url is Some,
            r matches Ok(s) ==> {
                &&& self.postgres_url matches Some(p) && s.postgres_url@ == p@
                &&& self.valkey_url matches Some(v) && s.valkey_url@ == v@
                &&& self.manticore_url matches Some(m) && s.manticore_url@ == m@
                &&& match self.app_name {
                    Some(n) => s.app_name@ == n@,
                    None => s.app_name@ == "Výchozí App"@,
                }
            },
            r matches Err(e) ==> match e {
                ConfigError::MissingPostgresUrl => self.postgres_url is None,
                ConfigError::MissingValkeyUrl => self.postgres_url is Some
                    && self.valkey_url is None,
                ConfigError::MissingManticoreUrl => self.postgres_url is Some
                    && self.valkey_url is Some && self.manticore_url is None,
            },
    {
        let postgres_url = match self.postgres_url {
            Some(u) => u,
            None => {
                return Err(ConfigError::MissingPostgresUrl);
            },
        };
        let valkey_url = match self.valkey_url {
            Some(u) => u,
            None => {
                return Err(ConfigError::MissingValkeyUrl);
            },
        };
        let manticore_url = match self.manticore_url {
            Some(u) => u,
            None => {
                return Err(ConfigError::MissingManticoreUrl);
            },
        };
        let app_name = match self.app_name {
            Some(n) => n,
            None => "Výchozí App".to_owned(),
        };
        Ok(AppSettings { app_name, postgres_url, valkey_url, manticore_url })
    }
}

} // verus!
