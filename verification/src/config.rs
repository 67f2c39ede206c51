//! Process settings assembled from configuration sources.
//!
//! The sources themselves — files, environment — are read outside the
//! library; the defaults and the validation of what they yielded are
//! decided here.

use vstd::prelude::*;
use crate::validate::{spec_trim, trim_str};
use vstd::string::StrSliceExecFns;

verus! {

/// The exporter's settings.
pub struct Settings {
    pub user_agent: String,
    pub locations: Vec<String>,
    pub port: u16,
    pub log_level: String,
    pub cache_settings: CacheSettings,
}

/// Cache tuning knobs.
#[derive(Clone, Copy, Debug, PartialEq, Eq, Structural)]
pub struct CacheSettings {
    pub enable_cache: bool,
    pub cache_duration_minutes: u64,
}

/// Why the configuration sources did not yield usable settings.
#[derive(Clone, Copy, Debug, PartialEq, Eq, Structural)]
pub enum SettingsError {
    /// The client-identification string is required and cannot be
    /// empty.
    EmptyUserAgent,
    /// At least one location must be specified.
    NoLocations,
}

impl Settings {
    /// Assemble settings from what the configuration sources yielded:
    /// absent values take their defaults (port 9090, log level "info",
    /// cache enabled for 5 minutes), the client-identification string
    /// must not be blank, and at least one location must be named.
    pub fn new(
        user_agent: String,
        locations: Vec<String>,
        port: Option<u16>,
        log_level: Option<String>,
        enable_cache: Option<bool>,
        cache_duration_minutes: Option<u64>,
    ) -> (r: Result<Settings, SettingsError>)
        ensures
            spec_trim(user_agent@).len() == 0 ==> r == Err::<Settings, _>(
                SettingsError::EmptyUserAgent,
            ),
            spec_trim(user_agent@).len() > 0 && locations@.len() == 0 ==> r == Err::<Settings, _>(
                SettingsError::NoLocations,
            ),
            spec_trim(user_agent@).len() > 0 && locations@.len() > 0 ==> (r matches Ok(s)
                && s.user_agent == user_agent && s.locations == locations && s.port == (
            if port is Some {
                port->0
            } else {
                9090u16
            }) && s.log_level@ == (
            if log_level is Some {
                log_level->0@
            } else {
                "info"@
            }) && s.cache_settings == (CacheSettings {
                enable_cache: if enable_cache is Some { enable_cache->0 } else { true },
                cache_duration_minutes: if cache_duration_minutes is Some {
                    cache_duration_minutes->0
                } else {
                    5u64
                },
            })),
    {
        let trimmed = trim_str(user_agent.as_str());
        if trimmed.as_str().unicode_len() == 0 {
            return Err(SettingsError::EmptyUserAgent);
        }
        if locations.len() == 0 {
            return Err(SettingsError::NoLocations);
        }
        let port = match port {
            Some(p) => p,
            None => 9090,
        };
        let log_level = match log_level {
            Some(l) => l,
            None => "info".to_owned(),
        };
        let enable_cache = match enable_cache {
            Some(b) => b,
            None => true,
        };
        let cache_duration_minutes = match cache_duration_minutes {
            Some(m) => m,
            None => 5,
        };
        Ok(
            Settings {
                user_agent,
                locations,
                port,
                log_level,
                cache_settings: CacheSettings { enable_cache, cache_duration_minutes },
            },
        )
    }
}

} // verus!
