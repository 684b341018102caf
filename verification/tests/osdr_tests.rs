use rust_iss::errors::ApiError;
use rust_iss::json::JsonValue;
use rust_iss::osdr::{extract_datetime, extract_string, OsdrRepo, OsdrService};

fn obj(fields: Vec<(&str, JsonValue)>) -> JsonValue {
    JsonValue::Obj(fields.into_iter().map(|(k, v)| (k.to_string(), v)).collect())
}

fn s(text: &str) -> JsonValue {
    JsonValue::Str(text.to_string())
}

fn service() -> OsdrService {
    OsdrService::new(OsdrRepo::new(), "http://catalogue".to_string(), "".to_string())
}

#[test]
fn extract_string_takes_first_nonempty_candidate() {
    let v = obj(vec![("title", s("")), ("name", s("Plant Growth")), ("label", s("x"))]);
    let keys = vec!["title", "name", "label"];
    assert_eq!(extract_string(&v, &keys), Some("Plant Growth".to_string()));
}

#[test]
fn extract_string_stringifies_numbers() {
    let v = obj(vec![("id", JsonValue::Int(42))]);
    let keys = vec!["dataset_id", "id"];
    assert_eq!(extract_string(&v, &keys), Some("42".to_string()));
    let v = obj(vec![("id", JsonValue::Num("4.5".to_string()))]);
    assert_eq!(extract_string(&v, &keys), Some("4.5".to_string()));
}

#[test]
fn extract_string_misses_when_no_candidate_fits() {
    let v = obj(vec![("title", s("")), ("name", JsonValue::Bool(true))]);
    let keys = vec!["title", "name"];
    assert_eq!(extract_string(&v, &keys), None);
}

#[test]
fn extract_datetime_reads_rfc3339() {
    let v = obj(vec![("updated", s("2021-01-01T00:00:00Z"))]);
    let keys = vec!["updated"];
    assert_eq!(extract_datetime(&v, &keys), Some(1_609_459_200_000));
}

#[test]
fn extract_datetime_reads_plain_pattern_as_utc() {
    let v = obj(vec![("updated", s("2021-01-01 00:00:00"))]);
    let keys = vec!["updated"];
    assert_eq!(extract_datetime(&v, &keys), Some(1_609_459_200_000));
}

#[test]
fn extract_datetime_reads_epoch_seconds() {
    let v = obj(vec![("timestamp", JsonValue::Int(1_609_459_200))]);
    let keys = vec!["updated", "timestamp"];
    assert_eq!(extract_datetime(&v, &keys), Some(1_609_459_200_000));
}

#[test]
fn extract_datetime_skips_unparseable_strings() {
    let v = obj(vec![("updated", s("not a time")), ("modified", JsonValue::Int(100))]);
    let keys = vec!["updated", "modified"];
    assert_eq!(extract_datetime(&v, &keys), Some(100_000));
}

#[test]
fn extract_datetime_out_of_range_epoch_ends_the_search() {
    let v = obj(vec![("updated", JsonValue::Int(i64::MAX)), ("modified", JsonValue::Int(100))]);
    let keys = vec!["updated", "modified"];
    assert_eq!(extract_datetime(&v, &keys), None);
}

#[test]
fn sync_counts_a_bare_array() {
    let mut svc = service();
    let payload = JsonValue::Arr(vec![
        obj(vec![("dataset_id", s("A")), ("title", s("one"))]),
        obj(vec![("dataset_id", s("B")), ("title", s("two"))]),
    ]);
    assert!(matches!(svc.sync(payload, 1_000), Ok(2)));
    let listed = svc.list(10);
    assert_eq!(listed.len(), 2);
    assert_eq!(listed[0].dataset_id, Some("B".to_string()));
    assert_eq!(listed[1].dataset_id, Some("A".to_string()));
}

#[test]
fn sync_unwraps_items_and_results_envelopes() {
    let mut svc = service();
    let payload = obj(vec![(
        "items",
        JsonValue::Arr(vec![obj(vec![("dataset_id", s("A"))])]),
    )]);
    assert!(matches!(svc.sync(payload, 1_000), Ok(1)));

    let payload = obj(vec![(
        "results",
        JsonValue::Arr(vec![obj(vec![("dataset_id", s("B"))])]),
    )]);
    assert!(matches!(svc.sync(payload, 2_000), Ok(1)));
    assert_eq!(svc.list(10).len(), 2);
}

#[test]
fn sync_falls_back_to_a_single_element() {
    let mut svc = service();
    let payload = obj(vec![("dataset_id", s("solo")), ("title", s("alone"))]);
    assert!(matches!(svc.sync(payload, 1_000), Ok(1)));
    let listed = svc.list(10);
    assert_eq!(listed[0].dataset_id, Some("solo".to_string()));
    assert_eq!(listed[0].title, Some("alone".to_string()));
}

#[test]
fn sync_with_any_invalid_element_writes_nothing() {
    let mut svc = service();
    let payload = JsonValue::Arr(vec![
        obj(vec![("dataset_id", s("A"))]),
        s("just a string"),
    ]);
    let r = svc.sync(payload, 1_000);
    assert!(matches!(r, Err(ApiError::Validation(_))));
    assert_eq!(svc.list(10).len(), 0);
}

#[test]
fn second_sync_of_same_key_overwrites_in_place() {
    let mut svc = service();
    let payload = JsonValue::Arr(vec![obj(vec![
        ("dataset_id", s("A")),
        ("title", s("one")),
        ("status", s("draft")),
    ])]);
    assert!(matches!(svc.sync(payload, 1_000), Ok(1)));
    let payload = JsonValue::Arr(vec![obj(vec![
        ("dataset_id", s("A")),
        ("title", s("two")),
        ("status", s("live")),
        ("updated", JsonValue::Int(5)),
    ])]);
    assert!(matches!(svc.sync(payload, 2_000), Ok(1)));
    let listed = svc.list(10);
    assert_eq!(listed.len(), 1);
    let row = listed[0];
    assert_eq!(row.id, 1);
    assert_eq!(row.dataset_id, Some("A".to_string()));
    assert_eq!(row.title, Some("two".to_string()));
    assert_eq!(row.status, Some("live".to_string()));
    assert_eq!(row.updated_at_ms, Some(5_000));
    // The row keeps its original insertion time.
    assert_eq!(row.inserted_at_ms, 1_000);
}

#[test]
fn keyless_elements_always_insert_fresh_rows() {
    let mut svc = service();
    let payload = JsonValue::Arr(vec![obj(vec![("title", s("no key"))])]);
    assert!(matches!(svc.sync(payload, 1_000), Ok(1)));
    let payload = JsonValue::Arr(vec![obj(vec![("title", s("no key"))])]);
    assert!(matches!(svc.sync(payload, 2_000), Ok(1)));
    let listed = svc.list(10);
    assert_eq!(listed.len(), 2);
    assert_ne!(listed[0].id, listed[1].id);
}

#[test]
fn business_key_candidates_are_searched_in_order() {
    let mut svc = service();
    let payload = JsonValue::Arr(vec![obj(vec![
        ("uuid", s("u-1")),
        ("id", JsonValue::Int(9)),
    ])]);
    assert!(matches!(svc.sync(payload, 1_000), Ok(1)));
    // "id" precedes "uuid" in the candidate list.
    assert_eq!(svc.list(10)[0].dataset_id, Some("9".to_string()));
}

#[test]
fn parse_item_rejects_non_objects() {
    let svc = service();
    let r = svc.parse_item(JsonValue::Bool(true), 1_000);
    assert!(matches!(r, Err(ApiError::Validation(_))));
}

#[test]
fn sync_of_an_empty_batch_writes_nothing_and_succeeds() {
    let mut svc = service();
    assert!(matches!(svc.sync(JsonValue::Arr(vec![]), 1_000), Ok(0)));
    assert_eq!(svc.list(10).len(), 0);
}

#[test]
fn duplicate_keys_within_one_batch_collapse_to_one_row() {
    let mut svc = service();
    let payload = JsonValue::Arr(vec![
        obj(vec![("dataset_id", s("A")), ("title", s("one"))]),
        obj(vec![("dataset_id", s("A")), ("title", s("two"))]),
    ]);
    assert!(matches!(svc.sync(payload, 1_000), Ok(2)));
    let listed = svc.list(10);
    assert_eq!(listed.len(), 1);
    assert_eq!(listed[0].title, Some("two".to_string()));
}
