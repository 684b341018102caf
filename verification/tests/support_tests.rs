use rust_iss::config::{FetchIntervals, RateLimitConfig, Timeouts};
use rust_iss::errors::{ApiError, ErrorClass};
use rust_iss::json::{str_eq, JsonValue};
use rust_iss::sources::{
    apod_query, apod_url, camel_window_query, donki_cme_url, donki_flr_url, external_api_error,
    neo_feed_url, osdr_query, snake_window_query, spacex_next_launch_url, DONKI_LOOKBACK_DAYS,
    NEO_LOOKBACK_DAYS,
};
use rust_iss::text::i64_to_string;

#[test]
fn integers_render_in_decimal() {
    assert_eq!(i64_to_string(0), "0");
    assert_eq!(i64_to_string(7), "7");
    assert_eq!(i64_to_string(12345), "12345");
    assert_eq!(i64_to_string(-40), "-40");
    assert_eq!(i64_to_string(i64::MAX), "9223372036854775807");
    assert_eq!(i64_to_string(i64::MIN), "-9223372036854775808");
}

#[test]
fn string_views_compare_by_characters() {
    assert!(str_eq("apod", "apod"));
    assert!(!str_eq("apod", "apodx"));
    assert!(!str_eq("apod", "neo"));
    assert!(str_eq("", ""));
}

#[test]
fn payload_shape_predicates() {
    assert!(JsonValue::Obj(vec![]).is_object());
    assert!(JsonValue::Arr(vec![]).is_array());
    assert!(JsonValue::Int(1).is_number());
    assert!(JsonValue::Num("1.5".to_string()).is_number());
    assert!(JsonValue::Str("x".to_string()).is_string());
    assert!(!JsonValue::Null.is_object());
}

#[test]
fn field_lookup_finds_top_level_fields_only() {
    let inner = JsonValue::Obj(vec![("deep".to_string(), JsonValue::Int(1))]);
    let v = JsonValue::Obj(vec![
        ("a".to_string(), inner),
        ("b".to_string(), JsonValue::Bool(true)),
    ]);
    assert!(v.get("a").is_some());
    assert!(matches!(v.get("b"), Some(JsonValue::Bool(true))));
    assert!(v.get("deep").is_none());
    assert!(JsonValue::Arr(vec![]).get("a").is_none());
}

#[test]
fn error_kinds_map_to_stable_statuses() {
    assert_eq!(ApiError::Database("d".to_string()).status_code(), 500);
    assert_eq!(ApiError::HttpClient("h".to_string()).status_code(), 502);
    assert_eq!(ApiError::Redis("r".to_string()).status_code(), 500);
    assert_eq!(ApiError::Validation("v".to_string()).status_code(), 400);
    assert_eq!(ApiError::NotFound("n".to_string()).status_code(), 404);
    assert_eq!(ApiError::RateLimitExceeded.status_code(), 429);
    assert_eq!(ApiError::Internal("i".to_string()).status_code(), 500);
    assert_eq!(ApiError::ExternalApi("e".to_string()).status_code(), 502);
}

#[test]
fn error_kinds_classify_without_ambiguity() {
    assert_eq!(
        ApiError::Validation("v".to_string()).classification(),
        ErrorClass::ClientCaused
    );
    assert_eq!(
        ApiError::NotFound("n".to_string()).classification(),
        ErrorClass::ClientCaused
    );
    assert_eq!(ApiError::RateLimitExceeded.classification(), ErrorClass::ClientCaused);
    assert_eq!(
        ApiError::ExternalApi("e".to_string()).classification(),
        ErrorClass::UpstreamCaused
    );
    assert_eq!(
        ApiError::HttpClient("h".to_string()).classification(),
        ErrorClass::UpstreamCaused
    );
    assert_eq!(
        ApiError::Database("d".to_string()).classification(),
        ErrorClass::ServerCaused
    );
    assert_eq!(
        ApiError::Internal("i".to_string()).classification(),
        ErrorClass::ServerCaused
    );
    assert_eq!(ApiError::Redis("r".to_string()).classification(), ErrorClass::ServerCaused);
}

#[test]
fn endpoints_are_fixed() {
    assert_eq!(apod_url(), "https://api.nasa.gov/planetary/apod");
    assert_eq!(neo_feed_url(), "https://api.nasa.gov/neo/rest/v1/feed");
    assert_eq!(donki_flr_url(), "https://api.nasa.gov/DONKI/FLR");
    assert_eq!(donki_cme_url(), "https://api.nasa.gov/DONKI/CME");
    assert_eq!(spacex_next_launch_url(), "https://api.spacexdata.com/v4/launches/next");
    assert_eq!(NEO_LOOKBACK_DAYS, 2);
    assert_eq!(DONKI_LOOKBACK_DAYS, 5);
}

#[test]
fn queries_append_the_key_only_when_present() {
    let q = apod_query("");
    assert_eq!(q, vec![("thumbs".to_string(), "true".to_string())]);
    let q = apod_query("k1");
    assert_eq!(q.len(), 2);
    assert_eq!(q[1], ("api_key".to_string(), "k1".to_string()));

    let q = snake_window_query("2021-01-01", "2021-01-03", "");
    assert_eq!(
        q,
        vec![
            ("start_date".to_string(), "2021-01-01".to_string()),
            ("end_date".to_string(), "2021-01-03".to_string()),
        ]
    );
    let q = camel_window_query("2021-01-01", "2021-01-06", "k2");
    assert_eq!(q.len(), 3);
    assert_eq!(q[0], ("startDate".to_string(), "2021-01-01".to_string()));
    assert_eq!(q[1], ("endDate".to_string(), "2021-01-06".to_string()));
    assert_eq!(q[2], ("api_key".to_string(), "k2".to_string()));

    assert!(osdr_query("").is_empty());
    assert_eq!(osdr_query("k3"), vec![("api_key".to_string(), "k3".to_string())]);
}

#[test]
fn transport_failures_carry_their_service_name() {
    let e = external_api_error("SpaceX API", "connection reset");
    match e {
        ApiError::ExternalApi(m) => assert_eq!(m, "SpaceX API error: connection reset"),
        _ => panic!("wrong error kind"),
    }
}

#[test]
fn stock_configuration_values() {
    let i = FetchIntervals::standard();
    assert_eq!((i.osdr, i.iss, i.apod, i.neo, i.donki, i.spacex), (600, 120, 43200, 7200, 3600, 3600));
    let t = Timeouts::standard();
    assert_eq!((t.http_connect_ms, t.http_read_ms, t.http_total_ms), (10_000, 30_000, 60_000));
    let r = RateLimitConfig::standard();
    assert_eq!((r.requests_per_minute, r.burst_size), (60, 10));
}
