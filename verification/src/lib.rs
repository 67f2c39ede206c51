//! Per-location cache-and-refresh coordination for a weather metrics
//! exporter.
//!
//! The library resolves place names to coordinates, decides when cached
//! forecast data may be reused versus revalidated against the upstream
//! service, serializes concurrent refresh attempts per location, and
//! projects the forecast sample nearest to "now" into a gauge model.
//! Network transport, the HTTP routes and the metrics text encoding live
//! outside the library; every decision they act on is made and verified
//! here.

pub mod builder;
pub mod config;
pub mod coordinator;
pub mod coords;
pub mod fetch;
pub mod forecast;
pub mod gauges;
pub mod location;
pub mod validate;
