use weathr::geolocation::{retry_decision, settlement_name, RetryDecision};
use weathr::onboard::GeocodingResult;

#[test]
fn test_geocoding_result_display_full() {
    let result = GeocodingResult {
        name: "Berlin".to_string(),
        latitude_e4: 525244,
        longitude_e4: 134105,
        country: Some("Germany".to_string()),
        admin1: Some("Berlin".to_string()),
        population: Some(3_426_354),
        country_code: Some("DE".to_string()),
    };
    // admin1 == name, so admin1 is omitted
    assert_eq!(result.to_string(), "Berlin, Germany (52.5244, 13.4105) - pop. 3426354");
}

#[test]
fn test_geocoding_result_display_different_admin1() {
    let result = GeocodingResult {
        name: "Munich".to_string(),
        latitude_e4: 481351,
        longitude_e4: 115820,
        country: Some("Germany".to_string()),
        admin1: Some("Bavaria".to_string()),
        population: Some(1_471_508),
        country_code: Some("DE".to_string()),
    };
    assert_eq!(
        result.to_string(),
        "Munich, Bavaria, Germany (48.1351, 11.5820) - pop. 1471508"
    );
}

#[test]
fn test_geocoding_result_display_no_population() {
    let result = GeocodingResult {
        name: "Smallville".to_string(),
        latitude_e4: 400000,
        longitude_e4: -800000,
        country: Some("United States".to_string()),
        admin1: Some("Kansas".to_string()),
        population: None,
        country_code: None,
    };
    assert_eq!(result.to_string(), "Smallville, Kansas, United States (40.0000, -80.0000)");
}

#[test]
fn test_geocoding_result_display_zero_population() {
    let result = GeocodingResult {
        name: "Nowhere".to_string(),
        latitude_e4: 0,
        longitude_e4: 0,
        country: Some("Country".to_string()),
        admin1: None,
        population: Some(0),
        country_code: None,
    };
    // pop == 0 is treated as "no population data"
    assert_eq!(result.to_string(), "Nowhere, Country (0.0000, 0.0000)");
}

#[test]
fn test_geocoding_result_display_country_code_fallback() {
    let result = GeocodingResult {
        name: "Place".to_string(),
        latitude_e4: 10000,
        longitude_e4: 20000,
        country: None,
        admin1: None,
        population: None,
        country_code: Some("XX".to_string()),
    };
    assert_eq!(result.to_string(), "Place, XX (1.0000, 2.0000)");
}

#[test]
fn test_geocoding_result_display_minimal() {
    let result = GeocodingResult {
        name: "Place".to_string(),
        latitude_e4: 10000,
        longitude_e4: 20000,
        country: None,
        admin1: None,
        population: None,
        country_code: None,
    };
    assert_eq!(result.to_string(), "Place (1.0000, 2.0000)");
}

#[test]
fn retry_backs_off_then_gives_up() {
    assert_eq!(retry_decision(1, true), RetryDecision::RetryAfterMs(500));
    assert_eq!(retry_decision(2, true), RetryDecision::RetryAfterMs(1000));
    assert_eq!(retry_decision(3, true), RetryDecision::GiveUp);
    assert_eq!(retry_decision(1, false), RetryDecision::GiveUp);
}

#[test]
fn settlement_prefers_city_then_town_then_village() {
    let s = |v: &str| Some(v.to_string());
    assert_eq!(settlement_name(s("A"), s("B"), s("C")), s("A"));
    assert_eq!(settlement_name(None, s("B"), s("C")), s("B"));
    assert_eq!(settlement_name(None, None, s("C")), s("C"));
    assert_eq!(settlement_name(None, None, None), None);
}
