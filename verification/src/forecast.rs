//! Forecast samples and the per-location cache.
//!
//! The cache holds the most recently fetched forecast payload together
//! with its validity window and the opaque revalidation token for
//! conditional requests. A cache without a validity instant is expired
//! whatever it holds, which also covers the never-fetched state.

use vstd::prelude::*;

verus! {

/// The optional scalar readings of one forecast sample. Values are
/// fixed-point integers in thousandths of the upstream unit, so that
/// the library carries them exactly.
#[derive(Clone, Copy, Debug, PartialEq, Eq)]
pub struct SampleFields {
    pub temperature: Option<i64>,
    pub humidity: Option<i64>,
    pub wind_speed: Option<i64>,
    pub wind_direction: Option<i64>,
    pub pressure: Option<i64>,
    pub cloud_coverage: Option<i64>,
    pub uv_index: Option<i64>,
    pub precipitation: Option<i64>,
}

impl SampleFields {
    /// A sample with no readings at all.
    pub fn empty() -> (r: SampleFields)
        ensures
            r == (SampleFields {
                temperature: None,
                humidity: None,
                wind_speed: None,
                wind_direction: None,
                pressure: None,
                cloud_coverage: None,
                uv_index: None,
                precipitation: None,
            }),
    {
        SampleFields {
            temperature: None,
            humidity: None,
            wind_speed: None,
            wind_direction: None,
            pressure: None,
            cloud_coverage: None,
            uv_index: None,
            precipitation: None,
        }
    }
}

/// One point-in-time forecast entry: a Unix timestamp in seconds and
/// the readings reported for that instant.
#[derive(Clone, Copy, Debug, PartialEq, Eq)]
pub struct ForecastSample {
    pub time: i64,
    pub fields: SampleFields,
}

/// The cached forecast for one location: the samples of the last
/// successful fetch, the instant until which they may be reused, and
/// the opaque token presented on the next conditional request.
#[derive(Clone, Debug, PartialEq, Eq)]
pub struct WeatherCache {
    pub samples: Vec<ForecastSample>,
    pub valid_until: Option<i64>,
    pub revalidation_token: Option<String>,
}

impl WeatherCache {
    /// The never-fetched state: no samples, no validity, no token.
    pub fn new() -> (r: WeatherCache)
        ensures
            r.samples@ == Seq::<ForecastSample>::empty(),
            r.valid_until is None,
            r.revalidation_token is None,
    {
        WeatherCache { samples: Vec::new(), valid_until: None, revalidation_token: None }
    }

    /// Whether the cache must be revalidated at instant `now`: true when
    /// no validity instant is recorded, or when `now` is past it.
    pub open spec fn spec_is_expired(&self, now: int) -> bool {
        match self.valid_until {
            None => true,
            Some(t) => now > t,
        }
    }

    /// The single source of truth for "must we talk to upstream".
    pub fn is_expired(&self, now: i64) -> (r: bool)
        ensures
            r == self.spec_is_expired(now as int),
    {
        match self.valid_until {
            None => true,
            Some(t) => now > t,
        }
    }
}

/// A cache without a validity instant is expired at every instant,
/// regardless of its sample content.
pub proof fn lemma_no_validity_always_expired(cache: WeatherCache, now: int)
    requires
        cache.valid_until is None,
    ensures
        cache.spec_is_expired(now),
{
}

/// With a validity instant recorded, the cache is expired exactly at
/// the instants past it: a future `valid_until` means not expired, a
/// past one means expired.
pub proof fn lemma_validity_window(cache: WeatherCache, now: int)
    requires
        cache.valid_until is Some,
    ensures
        now < cache.valid_until->0 ==> !cache.spec_is_expired(now),
        now > cache.valid_until->0 ==> cache.spec_is_expired(now),
{
}

} // verus!
