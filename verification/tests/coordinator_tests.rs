use weather_exporter::coords::Position;
use weather_exporter::coordinator::{init_location_states, LocationState, RefreshAction};
use weather_exporter::fetch::{CycleError, FetchOutcome};
use weather_exporter::forecast::{ForecastSample, SampleFields, WeatherCache};
use weather_exporter::gauges::LocationGauges;
use weather_exporter::location::{select_search_result, Location, LocationSearchResponse};

fn oslo() -> Location {
    Location {
        name: "Oslo".to_string(),
        position: Position { lat_e7: 599_133_300, lon_e7: 107_390_000 },
    }
}

fn sample(time: i64, temperature: i64) -> ForecastSample {
    let mut fields = SampleFields::empty();
    fields.temperature = Some(temperature);
    ForecastSample { time, fields }
}

#[test]
fn startup_entries_are_blank_and_deduplicated() {
    let names = vec!["Oslo".to_string(), "Bergen".to_string(), "Oslo".to_string()];
    let entries = init_location_states(&names);
    assert_eq!(entries.len(), 2);
    assert_eq!(entries[0].name, "Oslo");
    assert_eq!(entries[1].name, "Bergen");
    assert!(entries[0].state.location.is_none());
    assert!(entries[0].state.cache.valid_until.is_none());
    assert!(!entries[0].state.in_flight);
    assert_eq!(entries[0].gauges, LocationGauges::new());
}

#[test]
fn search_result_takes_the_first_match() {
    let response = LocationSearchResponse { locations: Some(vec![oslo()]) };
    assert_eq!(select_search_result(response), Some(oslo()));
    let empty = LocationSearchResponse { locations: Some(vec![]) };
    assert_eq!(select_search_result(empty), None);
    let missing = LocationSearchResponse { locations: None };
    assert_eq!(select_search_result(missing), None);
}

#[test]
fn first_refresh_resolves_then_fetches_once() {
    // End to end: "Oslo" with no prior cache issues one search call and
    // one forecast call, the success indicator becomes 1, and the
    // temperature gauge for (Oslo, 59.9133, 10.7390) is the nearest
    // sample's value.
    let now: i64 = 1_700_000_000;
    let mut state = LocationState::new();
    let mut gauges = LocationGauges::new();

    // One search call.
    let action = state.begin_refresh(&mut gauges, now);
    assert_eq!(action, RefreshAction::StartResolve);

    // A concurrent refresh during the in-flight phase must wait, not
    // start a second upstream call.
    let concurrent = state.begin_refresh(&mut gauges, now);
    assert_eq!(concurrent, RefreshAction::Wait);

    // The search result leads to exactly one forecast call, at the
    // rounded coordinates, with no conditional token yet.
    let action = state.complete_resolve(&mut gauges, Some(oslo()), now);
    assert_eq!(
        action,
        RefreshAction::StartFetch { lat_e4: 599_133, lon_e4: 107_390, revalidation_token: None }
    );

    // Another concurrent refresh still waits.
    let concurrent = state.begin_refresh(&mut gauges, now);
    assert_eq!(concurrent, RefreshAction::Wait);
    gauges.record_api_call();

    let outcome = FetchOutcome::Fresh {
        samples: vec![sample(now - 1_800, 1_000), sample(now + 600, 4_500)],
        valid_until: Some(now + 3_600),
        revalidation_token: Some("etag".to_string()),
    };
    let result = state.complete_fetch(&mut gauges, outcome, now);
    assert_eq!(result, Ok(()));
    assert!(!state.in_flight);

    assert_eq!(gauges.fetch_success, 1);
    assert_eq!(gauges.api_calls, 1);
    // The nearest sample (10 minutes ahead beats 30 minutes back).
    assert_eq!(gauges.temperature, Some(4_500));

    // The label coordinates for the gauges.
    let (lat, lon) = state.location.as_ref().unwrap().position.rounded();
    assert_eq!(weather_exporter::coords::format_coord_e4(lat), "59.9133");
    assert_eq!(weather_exporter::coords::format_coord_e4(lon), "10.7390");
}

#[test]
fn fresh_outcome_replaces_the_cache_wholesale() {
    let now: i64 = 50_000;
    let mut state = LocationState::new();
    state.location = Some(oslo());
    state.cache = WeatherCache {
        samples: vec![sample(1, 1)],
        valid_until: Some(10),
        revalidation_token: Some("old".to_string()),
    };
    state.in_flight = true;
    let mut gauges = LocationGauges::new();
    let outcome = FetchOutcome::Fresh {
        samples: vec![sample(now, 2_000)],
        valid_until: None,
        revalidation_token: None,
    };
    let result = state.complete_fetch(&mut gauges, outcome, now);
    assert_eq!(result, Ok(()));
    // No field-level merge: every cache field is the fresh one.
    assert_eq!(
        state.cache,
        WeatherCache {
            samples: vec![sample(now, 2_000)],
            valid_until: None,
            revalidation_token: None,
        }
    );
}

#[test]
fn not_modified_keeps_samples_and_refreshes_bookkeeping() {
    let now: i64 = 50_000;
    let prior_samples = vec![sample(1_000, 3_000)];
    let mut state = LocationState::new();
    state.location = Some(oslo());
    state.cache = WeatherCache {
        samples: prior_samples.clone(),
        valid_until: Some(10),
        revalidation_token: Some("old".to_string()),
    };
    state.in_flight = true;
    let mut gauges = LocationGauges::new();
    let outcome = FetchOutcome::NotModified {
        valid_until: Some(now + 60),
        revalidation_token: None,
    };
    let result = state.complete_fetch(&mut gauges, outcome, now);
    assert_eq!(result, Ok(()));
    // Samples retained unchanged, the refreshed expiry taken, the old
    // token kept because the response supplied none.
    assert_eq!(state.cache.samples, prior_samples);
    assert_eq!(state.cache.valid_until, Some(now + 60));
    assert_eq!(state.cache.revalidation_token, Some("old".to_string()));
    // A not-modified answer counts as a cache hit and a success.
    assert_eq!(gauges.cache_hits, 1);
    assert_eq!(gauges.fetch_success, 1);
    assert_eq!(gauges.temperature, Some(3_000));
}

#[test]
fn forbidden_leaves_the_cache_untouched_and_fails() {
    let now: i64 = 50_000;
    let prior = WeatherCache {
        samples: vec![sample(1_000, 3_000)],
        valid_until: Some(10),
        revalidation_token: Some("tok".to_string()),
    };
    let mut state = LocationState::new();
    state.location = Some(oslo());
    state.cache = prior.clone();
    state.in_flight = true;
    let mut gauges = LocationGauges::new();
    gauges.fetch_success = 1;
    let result = state.complete_fetch(&mut gauges, FetchOutcome::Forbidden, now);
    assert_eq!(result, Err(CycleError::Forbidden));
    assert_eq!(state.cache, prior);
    assert_eq!(gauges.fetch_success, 0);
    assert_eq!(gauges.temperature, None);
}

#[test]
fn rate_limit_and_upstream_errors_fail_without_touching_the_cache() {
    let now: i64 = 50_000;
    let prior = WeatherCache {
        samples: vec![sample(1_000, 3_000)],
        valid_until: Some(10),
        revalidation_token: None,
    };
    let mut state = LocationState::new();
    state.location = Some(oslo());
    state.cache = prior.clone();
    state.in_flight = true;
    let mut gauges = LocationGauges::new();
    assert_eq!(
        state.complete_fetch(&mut gauges, FetchOutcome::RateLimited, now),
        Err(CycleError::RateLimited)
    );
    assert_eq!(state.cache, prior);
    state.in_flight = true;
    assert_eq!(
        state.complete_fetch(&mut gauges, FetchOutcome::UpstreamError(500), now),
        Err(CycleError::UpstreamError(500))
    );
    assert_eq!(state.cache, prior);
    assert_eq!(gauges.fetch_success, 0);
}

#[test]
fn failed_resolution_records_failure_and_stays_retryable() {
    let now: i64 = 1_000;
    let mut state = LocationState::new();
    let mut gauges = LocationGauges::new();
    gauges.fetch_success = 1;
    let action = state.begin_refresh(&mut gauges, now);
    assert_eq!(action, RefreshAction::StartResolve);
    let action = state.complete_resolve(&mut gauges, None, now);
    assert_eq!(action, RefreshAction::Completed(Err(CycleError::ResolutionFailure)));
    assert_eq!(gauges.fetch_success, 0);
    // The state stays uninitialized and eligible for retry.
    assert!(state.location.is_none());
    assert!(!state.in_flight);
    let action = state.begin_refresh(&mut gauges, now);
    assert_eq!(action, RefreshAction::StartResolve);
}

#[test]
fn fresh_cache_is_served_without_an_upstream_call() {
    let now: i64 = 1_000;
    let mut state = LocationState::new();
    state.location = Some(oslo());
    state.cache = WeatherCache {
        samples: vec![sample(now, 9_000)],
        valid_until: Some(now + 60),
        revalidation_token: None,
    };
    let mut gauges = LocationGauges::new();
    let action = state.begin_refresh(&mut gauges, now);
    assert_eq!(action, RefreshAction::Completed(Ok(())));
    assert_eq!(gauges.cache_hits, 1);
    assert_eq!(gauges.fetch_success, 1);
    assert_eq!(gauges.temperature, Some(9_000));
    assert_eq!(gauges.api_calls, 0);
}

#[test]
fn expired_cache_fetches_with_the_stored_token() {
    let now: i64 = 1_000;
    let mut state = LocationState::new();
    state.location = Some(oslo());
    state.cache = WeatherCache {
        samples: vec![sample(1, 1)],
        valid_until: Some(now - 1),
        revalidation_token: Some("etag-9".to_string()),
    };
    let mut gauges = LocationGauges::new();
    let action = state.begin_refresh(&mut gauges, now);
    assert_eq!(
        action,
        RefreshAction::StartFetch {
            lat_e4: 599_133,
            lon_e4: 107_390,
            revalidation_token: Some("etag-9".to_string()),
        }
    );
    // The token is still stored for the not-modified bookkeeping.
    assert_eq!(state.cache.revalidation_token, Some("etag-9".to_string()));
}
