//! Payload validation rules.
//!
//! Each rule states exactly which payloads it accepts; the services refuse
//! to persist anything a rule rejects.

use vstd::prelude::*;
use crate::json::JsonValue;

verus! {

/// A satellite-position payload is acceptable when it is a structured
/// object carrying at least one of the two coordinate fields.
pub open spec fn spec_iss_payload_ok(payload: &JsonValue) -> bool {
    &&& payload.spec_is_object()
    &&& (payload.spec_get("latitude"@) is Some || payload.spec_get("longitude"@) is Some)
}

/// A catalogue element is acceptable when it is a structured object.
pub open spec fn spec_osdr_item_ok(item: &JsonValue) -> bool {
    item.spec_is_object()
}

/// A cache entry is acceptable when the source name is non-empty and the
/// payload is a structured object or an array.
pub open spec fn spec_space_cache_entry_ok(source: Seq<char>, payload: &JsonValue) -> bool {
    &&& source.len() > 0
    &&& (payload.spec_is_object() || payload.spec_is_array())
}

/// Accepts exactly the payloads that carry coordinates: an object with a
/// `latitude` or a `longitude` field.
pub fn validate_iss_payload(payload: &JsonValue) -> (r: Result<(), String>)
    ensures
        r is Ok <==> spec_iss_payload_ok(payload),
        !payload.spec_is_object() ==> (r matches Err(e) && e@ == "invalid_format"@),
        payload.spec_is_object() && !spec_iss_payload_ok(payload) ==> (r matches Err(e)
            && e@ == "missing_coordinates"@),
{
    if !payload.is_object() {
        return Err("invalid_format".to_owned());
    }
    let has_lat = payload.get("latitude").is_some();
    let has_lon = payload.get("longitude").is_some();
    if !has_lat && !has_lon {
        return Err("missing_coordinates".to_owned());
    }
    Ok(())
}

/// Accepts exactly the structured objects.
pub fn validate_osdr_item(item: &JsonValue) -> (r: Result<(), String>)
    ensures
        r is Ok <==> spec_osdr_item_ok(item),
        r matches Err(e) ==> e@ == "invalid_format"@,
{
    if !item.is_object() {
        return Err("invalid_format".to_owned());
    }
    Ok(())
}

/// Accepts exactly the cache entries with a non-empty source name and an
/// object or array payload.
pub fn validate_space_cache_entry(source: &str, payload: &JsonValue) -> (r: Result<(), String>)
    ensures
        r is Ok <==> spec_space_cache_entry_ok(source@, payload),
        source@.len() == 0 ==> (r matches Err(e) && e@ == "empty_source"@),
        source@.len() > 0 && !(payload.spec_is_object() || payload.spec_is_array()) ==> (
        r matches Err(e) && e@ == "invalid_payload_format"@),
{
    if source.is_empty() {
        return Err("empty_source".to_owned());
    }
    if !payload.is_object() && !payload.is_array() {
        return Err("invalid_payload_format".to_owned());
    }
    Ok(())
}

} // verus!
