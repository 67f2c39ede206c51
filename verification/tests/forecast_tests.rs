use weather_exporter::fetch::{classify_response, FetchOutcome};
use weather_exporter::forecast::{ForecastSample, SampleFields, WeatherCache};

fn sample_at(time: i64) -> ForecastSample {
    ForecastSample { time, fields: SampleFields::empty() }
}

#[test]
fn cache_without_validity_is_always_expired() {
    let mut cache = WeatherCache::new();
    assert!(cache.is_expired(0));
    assert!(cache.is_expired(i64::MIN));
    assert!(cache.is_expired(i64::MAX));
    // Sample content does not matter.
    cache.samples.push(sample_at(100));
    assert!(cache.is_expired(0));
}

#[test]
fn cache_expiry_follows_the_validity_instant() {
    let cache = WeatherCache {
        samples: vec![sample_at(100)],
        valid_until: Some(1_000),
        revalidation_token: None,
    };
    assert!(!cache.is_expired(999));
    assert!(!cache.is_expired(1_000));
    assert!(cache.is_expired(1_001));
}

#[test]
fn success_with_body_is_fresh_with_parsed_expiry() {
    let samples = vec![sample_at(1_704_067_200)];
    let outcome = classify_response(
        200,
        Some("Mon, 01 Jan 2024 00:00:00 GMT".to_string()),
        Some("token-1".to_string()),
        Some(samples.clone()),
    );
    assert_eq!(
        outcome,
        FetchOutcome::Fresh {
            samples,
            valid_until: Some(1_704_067_200),
            revalidation_token: Some("token-1".to_string()),
        }
    );
}

#[test]
fn malformed_expiry_header_yields_no_validity() {
    let outcome = classify_response(
        200,
        Some("not a date".to_string()),
        None,
        Some(vec![]),
    );
    assert_eq!(
        outcome,
        FetchOutcome::Fresh { samples: vec![], valid_until: None, revalidation_token: None }
    );
}

#[test]
fn missing_expiry_header_yields_no_validity() {
    let outcome = classify_response(200, None, Some("tok".to_string()), Some(vec![]));
    assert_eq!(
        outcome,
        FetchOutcome::Fresh {
            samples: vec![],
            valid_until: None,
            revalidation_token: Some("tok".to_string()),
        }
    );
}

#[test]
fn success_without_decodable_body_is_an_upstream_error() {
    let outcome = classify_response(200, None, None, None);
    assert_eq!(outcome, FetchOutcome::UpstreamError(200));
}

#[test]
fn not_modified_carries_the_supplied_bookkeeping() {
    let outcome = classify_response(
        304,
        Some("Mon, 01 Jan 2024 00:00:00 GMT".to_string()),
        Some("token-2".to_string()),
        None,
    );
    assert_eq!(
        outcome,
        FetchOutcome::NotModified {
            valid_until: Some(1_704_067_200),
            revalidation_token: Some("token-2".to_string()),
        }
    );
}

#[test]
fn throttling_and_rejection_statuses_classify() {
    assert_eq!(classify_response(429, None, None, None), FetchOutcome::RateLimited);
    assert_eq!(classify_response(403, None, None, None), FetchOutcome::Forbidden);
    assert_eq!(classify_response(500, None, None, None), FetchOutcome::UpstreamError(500));
    assert_eq!(classify_response(404, None, None, None), FetchOutcome::UpstreamError(404));
}
