//! Conditional forecast fetches: request URL, response classification,
//! and the validity bookkeeping read from response headers.
//!
//! The transport lives outside the library. It hands back the response
//! status, the expiry and revalidation headers, and the decoded samples
//! of a success body; everything decided from those is verified here.

use vstd::prelude::*;
use vstd::string::StringExecFns;
use crate::coords::{coord_e4_chars, format_coord_e4};
use crate::forecast::ForecastSample;

verus! {

/// The classification of one upstream forecast response.
#[derive(Clone, Debug, PartialEq, Eq)]
pub enum FetchOutcome {
    /// Upstream returned new data: the decoded samples, the instant the
    /// expiry header named (absent or malformed means none, so the
    /// result is immediately revalidatable), and the revalidation token
    /// for the next conditional request.
    Fresh { samples: Vec<ForecastSample>, valid_until: Option<i64>, revalidation_token: Option<String> },
    /// Upstream confirmed the prior data is still current; only the
    /// bookkeeping the response supplied is refreshed.
    NotModified { valid_until: Option<i64>, revalidation_token: Option<String> },
    /// Upstream signaled throttling; a recoverable failure for this cycle.
    RateLimited,
    /// Upstream rejected the request, commonly a client-identification
    /// misconfiguration; not transient.
    Forbidden,
    /// Any other non-success status, or 0 when no response arrived at all.
    UpstreamError(u16),
}

/// Why one location's refresh cycle failed.
#[derive(Clone, Copy, Debug, PartialEq, Eq, Structural)]
pub enum CycleError {
    /// The name could not be resolved to coordinates.
    ResolutionFailure,
    /// The upstream throttled the request.
    RateLimited,
    /// The upstream rejected the request outright.
    Forbidden,
    /// Another non-success status, or no response at all.
    UpstreamError(u16),
}

/// What `chrono`'s RFC 2822 parse yields for a string: the parsed
/// instant as a Unix timestamp in seconds, or `None` when the string is
/// not a valid RFC 2822 date. A function of the characters alone.
pub uninterp spec fn rfc2822_ts(s: Seq<char>) -> Option<i64>;

/// Relies on `chrono::DateTime::parse_from_rfc2822` and
/// `chrono::DateTime::timestamp`: both depend on the argument alone.
#[verifier::external_body]
fn parse_rfc2822_timestamp(s: &str) -> (r: Option<i64>)
    ensures
        r == rfc2822_ts(s@),
{
    chrono::DateTime::parse_from_rfc2822(s).ok().map(|dt| dt.timestamp())
}

/// The instant an optional expiry header names, if it parses.
pub open spec fn spec_header_instant(header: Option<String>) -> Option<i64> {
    match header {
        Some(s) => rfc2822_ts(s@),
        None => None,
    }
}

/// Classify an upstream forecast response from its status code, its
/// expiry and revalidation headers, and the decoded samples of its body
/// (`None` when there was no decodable success body).
pub fn classify_response(
    status: u16,
    expires_header: Option<String>,
    last_modified_header: Option<String>,
    body: Option<Vec<ForecastSample>>,
) -> (r: FetchOutcome)
    ensures
        status == 200 && body is Some ==> r == (FetchOutcome::Fresh {
            samples: body->0,
            valid_until: spec_header_instant(expires_header),
            revalidation_token: last_modified_header,
        }),
        status == 200 && body is None ==> r == FetchOutcome::UpstreamError(200),
        status == 304 ==> r == (FetchOutcome::NotModified {
            valid_until: spec_header_instant(expires_header),
            revalidation_token: last_modified_header,
        }),
        status == 429 ==> r == FetchOutcome::RateLimited,
        status == 403 ==> r == FetchOutcome::Forbidden,
        status != 200 && status != 304 && status != 429 && status != 403
            ==> r == FetchOutcome::UpstreamError(status),
{
    if status == 200 {
        match body {
            Some(samples) => {
                let valid_until = match &expires_header {
                    Some(s) => parse_rfc2822_timestamp(s.as_str()),
                    None => None,
                };
                FetchOutcome::Fresh { samples, valid_until, revalidation_token: last_modified_header }
            },
            None => FetchOutcome::UpstreamError(200),
        }
    } else if status == 304 {
        let valid_until = match &expires_header {
            Some(s) => parse_rfc2822_timestamp(s.as_str()),
            None => None,
        };
        FetchOutcome::NotModified { valid_until, revalidation_token: last_modified_header }
    } else if status == 429 {
        FetchOutcome::RateLimited
    } else if status == 403 {
        FetchOutcome::Forbidden
    } else {
        FetchOutcome::UpstreamError(status)
    }
}

/// The forecast URL for a pair of rounded coordinates in 1e-4-degree
/// units.
pub fn build_forecast_url(lat_e4: i64, lon_e4: i64) -> (r: String)
    requires
        -900_000 <= lat_e4 <= 900_000,
        -1_800_000 <= lon_e4 <= 1_800_000,
    ensures
        r@ == "https://api.met.no/weatherapi/locationforecast/2.0/compact?lat="@
            + coord_e4_chars(lat_e4 as int) + "&lon="@ + coord_e4_chars(lon_e4 as int),
{
    let mut url = "https://api.met.no/weatherapi/locationforecast/2.0/compact?lat=".to_owned();
    let lat = format_coord_e4(lat_e4);
    url.append(lat.as_str());
    url.append("&lon=");
    let lon = format_coord_e4(lon_e4);
    url.append(lon.as_str());
    url
}

} // verus!
