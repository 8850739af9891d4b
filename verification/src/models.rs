//! View models handed to the page-rendering layer.
//!
//! Each page is rendered from a small value object; these constructors say
//! exactly which configured or looked-up values each page shows. Rendering
//! itself lives with the surrounding process.

use vstd::prelude::*;

use crate::config::MqttConfig;

verus! {

/// View model for the main page.
pub struct IndexTemplate {
    pub app_name: String,
}

impl IndexTemplate {
    /// The main page shows the application's display name.
    pub fn new(app_name: String) -> (t: IndexTemplate)
        ensures
            t.app_name@ == app_name@,
    {
        IndexTemplate { app_name }
    }
}

/// View model for the key/value page: one key and the value found for it.
pub struct ValkeyTemplate {
    pub key: String,
    pub value: String,
}

impl ValkeyTemplate {
    /// The key/value page shows the looked-up value verbatim, or a fixed
    /// not-found notice when the key was absent.
    pub fn from_lookup(key: String, value: Option<String>) -> (t: ValkeyTemplate)
        ensures
            t.key@ == key@,
            match value {
                Some(v) => t.value@ == v@,
                None => t.value@ == "(Klíč nebyl v databázi nalezen)"@,
            },
    {
        let value = match value {
            Some(v) => v,
            None => "(Klíč nebyl v databázi nalezen)".to_owned(),
        };
        ValkeyTemplate { key, value }
    }
}

/// View model for the telemetry page: only the connection parameters the
/// page needs to poll the read API itself; the data is fetched separately.
pub struct MqttTemplate {
    pub broker_host: String,
    pub refresh_interval_ms: u64,
}

impl MqttTemplate {
    /// The telemetry page shows the configured broker host and polls at the
    /// configured refresh interval.
    pub fn from_config(config: &MqttConfig) -> (t: MqttTemplate)
        ensures
            t.broker_host@ == config.host@,
            t.refresh_interval_ms == config.refresh_interval_ms,
    {
        MqttTemplate {
            broker_host: config.host.clone(),
            refresh_interval_ms: config.refresh_interval_ms,
        }
    }
}

} // verus!
