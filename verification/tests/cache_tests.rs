use rust_iss::cache::{is_known_source, CacheRepo, SpaceService};
use rust_iss::json::JsonValue;
use rust_iss::osdr::{OsdrRepo, OsdrService};

fn obj(fields: Vec<(&str, JsonValue)>) -> JsonValue {
    JsonValue::Obj(fields.into_iter().map(|(k, v)| (k.to_string(), v)).collect())
}

fn s(text: &str) -> JsonValue {
    JsonValue::Str(text.to_string())
}

fn service() -> SpaceService {
    SpaceService::new(CacheRepo::new(), "".to_string())
}

#[test]
fn latest_is_the_most_recent_entry_per_source() {
    let mut repo = CacheRepo::new();
    repo.insert("apod".to_string(), obj(vec![("n", JsonValue::Int(1))]), 1_000);
    repo.insert("neo".to_string(), obj(vec![("n", JsonValue::Int(2))]), 2_000);
    repo.insert("apod".to_string(), obj(vec![("n", JsonValue::Int(3))]), 3_000);
    let latest = repo.get_latest("apod").unwrap();
    assert_eq!(latest.fetched_at_ms, 3_000);
    assert_eq!(latest.id, 3);
    assert_eq!(latest.source, "apod");
    assert!(repo.get_latest("flr").is_none());
}

#[test]
fn the_five_sources_are_known_and_others_are_not() {
    assert!(is_known_source("apod"));
    assert!(is_known_source("neo"));
    assert!(is_known_source("flr"));
    assert!(is_known_source("cme"));
    assert!(is_known_source("spacex"));
    assert!(!is_known_source("iss"));
    assert!(!is_known_source(""));
    assert!(!is_known_source("apods"));
}

#[test]
fn refresh_swallows_one_failure_and_keeps_the_other() {
    let mut svc = service();
    let sources = vec!["apod".to_string(), "neo".to_string()];
    let results = vec![None, Some(obj(vec![("near_earth_objects", JsonValue::Arr(vec![]))]))];
    let done = svc.refresh(&sources, results, 1_000);
    assert_eq!(done, vec!["neo".to_string()]);
    assert_eq!(svc.cache_repo.rows.len(), 1);
    let entry = svc.get_latest("neo").unwrap();
    assert_eq!(entry.source, "neo");
    assert_eq!(entry.fetched_at_ms, 1_000);
    assert!(svc.get_latest("apod").is_none());
}

#[test]
fn refresh_ignores_unknown_names() {
    let mut svc = service();
    let sources = vec!["bogus".to_string()];
    let results = vec![Some(obj(vec![]))];
    let done = svc.refresh(&sources, results, 1_000);
    assert!(done.is_empty());
    assert_eq!(svc.cache_repo.rows.len(), 0);
}

#[test]
fn refresh_rejects_invalid_payloads_silently() {
    let mut svc = service();
    let sources = vec!["apod".to_string()];
    let results = vec![Some(s("not structured"))];
    let done = svc.refresh(&sources, results, 1_000);
    assert!(done.is_empty());
    assert_eq!(svc.cache_repo.rows.len(), 0);
}

#[test]
fn refresh_keeps_request_order_and_duplicates() {
    let mut svc = service();
    let sources = vec!["neo".to_string(), "apod".to_string(), "neo".to_string()];
    let results = vec![
        Some(obj(vec![("a", JsonValue::Int(1))])),
        Some(obj(vec![("b", JsonValue::Int(2))])),
        Some(obj(vec![("c", JsonValue::Int(3))])),
    ];
    let done = svc.refresh(&sources, results, 1_000);
    assert_eq!(done, vec!["neo".to_string(), "apod".to_string(), "neo".to_string()]);
    assert_eq!(svc.cache_repo.rows.len(), 3);
    // The later entry is the current one for the duplicated source.
    assert_eq!(svc.get_latest("neo").unwrap().id, 3);
}

#[test]
fn summary_aggregates_sources_and_catalogue_count() {
    let mut svc = service();
    let sources = vec!["apod".to_string(), "spacex".to_string()];
    let results = vec![
        Some(obj(vec![("title", s("picture"))])),
        Some(obj(vec![("name", s("mission"))])),
    ];
    svc.refresh(&sources, results, 1_000);

    let mut osdr = OsdrService::new(OsdrRepo::new(), "u".to_string(), "".to_string());
    let payload = JsonValue::Arr(vec![
        obj(vec![("dataset_id", s("A"))]),
        obj(vec![("dataset_id", s("B"))]),
    ]);
    osdr.sync(payload, 1_000).unwrap();

    let summary = svc.get_summary(&osdr.repo);
    assert!(summary.apod.is_some());
    assert!(summary.spacex.is_some());
    assert!(summary.neo.is_none());
    assert!(summary.flr.is_none());
    assert!(summary.cme.is_none());
    assert!(summary.iss.is_none());
    assert_eq!(summary.osdr_count, 2);
}

#[test]
fn refresh_of_nothing_does_nothing() {
    let mut svc = service();
    let done = svc.refresh(&vec![], vec![], 1_000);
    assert!(done.is_empty());
    assert_eq!(svc.cache_repo.rows.len(), 0);
}
