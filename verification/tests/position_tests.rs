use rust_iss::errors::ApiError;
use rust_iss::json::JsonValue;
use rust_iss::position::{IssRepo, IssService, NumberCandidate};
use rust_iss::validation::{
    validate_iss_payload, validate_osdr_item, validate_space_cache_entry,
};

fn obj(fields: Vec<(&str, JsonValue)>) -> JsonValue {
    JsonValue::Obj(fields.into_iter().map(|(k, v)| (k.to_string(), v)).collect())
}

fn num(token: &str) -> JsonValue {
    JsonValue::Num(token.to_string())
}

#[test]
fn iss_payload_needs_object_shape() {
    let r = validate_iss_payload(&JsonValue::Str("x".to_string()));
    assert_eq!(r, Err("invalid_format".to_string()));
}

#[test]
fn iss_payload_needs_a_coordinate() {
    let p = obj(vec![("altitude", num("400"))]);
    assert_eq!(validate_iss_payload(&p), Err("missing_coordinates".to_string()));
    let p = obj(vec![("latitude", num("10.0"))]);
    assert_eq!(validate_iss_payload(&p), Ok(()));
    let p = obj(vec![("longitude", num("20.0"))]);
    assert_eq!(validate_iss_payload(&p), Ok(()));
}

#[test]
fn osdr_item_must_be_object() {
    assert_eq!(validate_osdr_item(&JsonValue::Arr(vec![])), Err("invalid_format".to_string()));
    assert_eq!(validate_osdr_item(&obj(vec![])), Ok(()));
}

#[test]
fn cache_entry_needs_source_and_structured_payload() {
    assert_eq!(
        validate_space_cache_entry("", &obj(vec![])),
        Err("empty_source".to_string())
    );
    assert_eq!(
        validate_space_cache_entry("apod", &JsonValue::Str("x".to_string())),
        Err("invalid_payload_format".to_string())
    );
    assert_eq!(validate_space_cache_entry("apod", &obj(vec![])), Ok(()));
    assert_eq!(validate_space_cache_entry("apod", &JsonValue::Arr(vec![])), Ok(()));
}

#[test]
fn invalid_payload_appends_nothing() {
    let mut svc = IssService::new(IssRepo::new());
    let p = obj(vec![("altitude", num("400"))]);
    let r = svc.fetch_and_store("http://example/sat".to_string(), p, 1_000);
    assert!(matches!(r, Err(ApiError::Validation(_))));
    assert!(svc.get_last().is_none());
}

#[test]
fn every_good_fetch_appends_a_fresh_row() {
    let mut svc = IssService::new(IssRepo::new());
    let p1 = obj(vec![("latitude", num("10.0")), ("longitude", num("20.0"))]);
    let p2 = obj(vec![("latitude", num("10.0")), ("longitude", num("20.0"))]);
    svc.fetch_and_store("u".to_string(), p1, 1_000).unwrap();
    svc.fetch_and_store("u".to_string(), p2, 2_000).unwrap();
    let last = svc.get_last().unwrap();
    assert_eq!(last.id, 2);
    assert_eq!(last.fetched_at_ms, 2_000);
    assert_eq!(last.source_url, "u");
}

#[test]
fn trend_without_two_points_is_empty() {
    let mut svc = IssService::new(IssRepo::new());
    let t = svc.calculate_trend();
    assert!(!t.has_points);
    assert_eq!(t.dt_ms, 0);
    assert!(t.from_time_ms.is_none());
    assert!(t.to_time_ms.is_none());
    assert!(t.from_lat.is_none());
    assert!(t.to_lon.is_none());
    assert!(t.velocity.is_none());

    let p = obj(vec![("latitude", num("10.0")), ("longitude", num("20.0"))]);
    svc.fetch_and_store("u".to_string(), p, 1_000).unwrap();
    let t = svc.calculate_trend();
    assert!(!t.has_points);
    assert_eq!(t.dt_ms, 0);
    assert!(t.from_time_ms.is_none());
}

#[test]
fn trend_compares_the_two_most_recent_observations() {
    let mut svc = IssService::new(IssRepo::new());
    let p1 = obj(vec![
        ("latitude", num("10.0")),
        ("longitude", JsonValue::Str("20.5".to_string())),
    ]);
    let p2 = obj(vec![
        ("latitude", num("11.0")),
        ("longitude", num("21.0")),
        ("velocity", num("27000.5")),
    ]);
    svc.fetch_and_store("u".to_string(), p1, 1_000).unwrap();
    svc.fetch_and_store("u".to_string(), p2, 3_500).unwrap();
    let t = svc.calculate_trend();
    assert!(t.has_points);
    assert_eq!(t.from_time_ms, Some(1_000));
    assert_eq!(t.to_time_ms, Some(3_500));
    assert_eq!(t.dt_ms, 2_500);
    assert_eq!(t.from_lat, Some(NumberCandidate::Num("10.0".to_string())));
    assert_eq!(t.from_lon, Some(NumberCandidate::Text("20.5".to_string())));
    assert_eq!(t.to_lat, Some(NumberCandidate::Num("11.0".to_string())));
    assert_eq!(t.to_lon, Some(NumberCandidate::Num("21.0".to_string())));
    assert_eq!(t.velocity, Some(NumberCandidate::Num("27000.5".to_string())));
}

#[test]
fn trend_with_missing_coordinate_still_reports_times() {
    let mut svc = IssService::new(IssRepo::new());
    let p1 = obj(vec![("latitude", num("10.0"))]);
    let p2 = obj(vec![("longitude", num("21.0")), ("velocity", JsonValue::Int(27000))]);
    svc.fetch_and_store("u".to_string(), p1, 1_000).unwrap();
    svc.fetch_and_store("u".to_string(), p2, 2_000).unwrap();
    let t = svc.calculate_trend();
    assert!(t.has_points);
    assert_eq!(t.dt_ms, 1_000);
    assert_eq!(t.from_lat, Some(NumberCandidate::Num("10.0".to_string())));
    assert!(t.from_lon.is_none());
    assert!(t.to_lat.is_none());
    assert_eq!(t.to_lon, Some(NumberCandidate::Num("21.0".to_string())));
    assert_eq!(t.velocity, Some(NumberCandidate::Int(27000)));
}

#[test]
fn trend_points_come_newest_first() {
    let mut svc = IssService::new(IssRepo::new());
    for i in 0..3 {
        let p = obj(vec![("latitude", num("1.0"))]);
        svc.fetch_and_store("u".to_string(), p, 1_000 * (i + 1)).unwrap();
    }
    let points = svc.repo.get_trend_points(2);
    assert_eq!(points.len(), 2);
    assert_eq!(points[0].fetched_at_ms, 3_000);
    assert_eq!(points[1].fetched_at_ms, 2_000);
    let all = svc.repo.get_trend_points(10);
    assert_eq!(all.len(), 3);
}
