//! A builder for the exporter's configuration.
//!
//! The client-identification string is mandatory and checked, at least
//! one location must be configured, and the port and log level carry
//! defaults.

use vstd::prelude::*;
use crate::validate::{spec_validate_user_agent, validate_user_agent, UserAgentError};

verus! {

/// The configuration being assembled.
pub struct WeatherExporterBuilder {
    pub user_agent: Option<String>,
    pub locations: Vec<String>,
    pub port: u16,
    pub log_level: String,
}

/// A complete, validated exporter configuration.
pub struct WeatherExporter {
    pub user_agent: String,
    pub locations: Vec<String>,
    pub port: u16,
    pub log_level: String,
}

/// Why a configuration could not be built.
#[derive(Clone, Copy, Debug, PartialEq, Eq, Structural)]
pub enum BuilderError {
    /// No client-identification string was supplied; the upstream
    /// service requires one.
    MissingUserAgent,
    /// Not a single location was configured.
    NoLocations,
    /// The client-identification string was supplied but rejected.
    InvalidUserAgent(UserAgentError),
}

impl WeatherExporterBuilder {
    pub fn new() -> (r: WeatherExporterBuilder)
        ensures
            r.user_agent is None,
            r.locations@.len() == 0,
            r.port == 9090,
            r.log_level@ == "info"@,
    {
        WeatherExporterBuilder {
            user_agent: None,
            locations: Vec::new(),
            port: 9090,
            log_level: "info".to_owned(),
        }
    }

    /// Required: the client-identification string for the upstream
    /// service.
    pub fn user_agent(self, ua: &str) -> (r: WeatherExporterBuilder)
        ensures
            r.user_agent matches Some(s) && s@ == ua@,
            r.locations == self.locations,
            r.port == self.port,
            r.log_level == self.log_level,
    {
        WeatherExporterBuilder { user_agent: Some(ua.to_owned()), ..self }
    }

    pub fn add_location(self, location: &str) -> (r: WeatherExporterBuilder)
        ensures
            r.locations@.len() == self.locations@.len() + 1,
            r.locations@.last()@ == location@,
            forall|i: int| 0 <= i < self.locations@.len() ==> r.locations@[i] == self.locations@[i],
            r.user_agent == self.user_agent,
            r.port == self.port,
            r.log_level == self.log_level,
    {
        let mut b = self;
        b.locations.push(location.to_owned());
        b
    }

    pub fn locations(self, locations: Vec<String>) -> (r: WeatherExporterBuilder)
        ensures
            r.locations == locations,
            r.user_agent == self.user_agent,
            r.port == self.port,
            r.log_level == self.log_level,
    {
        WeatherExporterBuilder { locations, ..self }
    }

    pub fn port(self, port: u16) -> (r: WeatherExporterBuilder)
        ensures
            r.port == port,
            r.user_agent == self.user_agent,
            r.locations == self.locations,
            r.log_level == self.log_level,
    {
        WeatherExporterBuilder { port, ..self }
    }

    pub fn log_level(self, level: &str) -> (r: WeatherExporterBuilder)
        ensures
            r.log_level@ == level@,
            r.user_agent == self.user_agent,
            r.locations == self.locations,
            r.port == self.port,
    {
        WeatherExporterBuilder { log_level: level.to_owned(), ..self }
    }

    /// Finish the configuration: the client-identification string must
    /// be present and valid, and at least one location configured.
    pub fn build(self) -> (r: Result<WeatherExporter, BuilderError>)
        ensures
            self.user_agent is None ==> r == Err::<WeatherExporter, _>(BuilderError::MissingUserAgent),
            self.user_agent is Some && self.locations@.len() == 0 ==> r == Err::<WeatherExporter, _>(
                BuilderError::NoLocations,
            ),
            self.user_agent is Some && self.locations@.len() > 0 ==> match spec_validate_user_agent(
                self.user_agent->0@,
            ) {
                Err(e) => r == Err::<WeatherExporter, _>(BuilderError::InvalidUserAgent(e)),
                Ok(()) => r matches Ok(w) && w.user_agent == self.user_agent->0 && w.locations
                    == self.locations && w.port == self.port && w.log_level == self.log_level,
            },
    {
        let user_agent = match self.user_agent {
            Some(ua) => ua,
            None => {
                return Err(BuilderError::MissingUserAgent);
            },
        };
        if self.locations.len() == 0 {
            return Err(BuilderError::NoLocations);
        }
        match validate_user_agent(user_agent.as_str()) {
            Err(e) => Err(BuilderError::InvalidUserAgent(e)),
            Ok(()) => Ok(
                WeatherExporter {
                    user_agent,
                    locations: self.locations,
                    port: self.port,
                    log_level: self.log_level,
                },
            ),
        }
    }
}

} // verus!
