//! The per-source request shapes.
//!
//! Each external service has a fixed endpoint and its own query
//! construction: a date window for the feeds that need one, and the API
//! key appended only when it is non-empty. Transport failures are tagged
//! with the service's name so diagnostics keep their origin. The caller
//! supplies the window dates — they come from the clock — and performs
//! the requests.

use vstd::prelude::*;
use vstd::string::StringExecFns;
use crate::errors::ApiError;

verus! {

/// Days of lookback the near-Earth-object feed is asked for.
pub const NEO_LOOKBACK_DAYS: u64 = 2;

/// Days of lookback the solar-event feeds are asked for.
pub const DONKI_LOOKBACK_DAYS: u64 = 5;

/// The astronomy-picture endpoint.
pub fn apod_url() -> (r: &'static str)
    ensures
        r@ == "https://api.nasa.gov/planetary/apod"@,
{
    "https://api.nasa.gov/planetary/apod"
}

/// The near-Earth-object feed endpoint.
pub fn neo_feed_url() -> (r: &'static str)
    ensures
        r@ == "https://api.nasa.gov/neo/rest/v1/feed"@,
{
    "https://api.nasa.gov/neo/rest/v1/feed"
}

/// The solar-flare feed endpoint.
pub fn donki_flr_url() -> (r: &'static str)
    ensures
        r@ == "https://api.nasa.gov/DONKI/FLR"@,
{
    "https://api.nasa.gov/DONKI/FLR"
}

/// The coronal-mass-ejection feed endpoint.
pub fn donki_cme_url() -> (r: &'static str)
    ensures
        r@ == "https://api.nasa.gov/DONKI/CME"@,
{
    "https://api.nasa.gov/DONKI/CME"
}

/// The next-launch endpoint.
pub fn spacex_next_launch_url() -> (r: &'static str)
    ensures
        r@ == "https://api.spacexdata.com/v4/launches/next"@,
{
    "https://api.spacexdata.com/v4/launches/next"
}

/// One query pair equals the given name and value.
pub open spec fn spec_pair(
    pair: (String, String),
    name: Seq<char>,
    value: Seq<char>,
) -> bool {
    pair.0@ == name && pair.1@ == value
}

/// The astronomy-picture query: thumbnails on, and the API key when one
/// is configured.
pub fn apod_query(api_key: &str) -> (r: Vec<(String, String)>)
    ensures
        r@.len() == if api_key@.len() == 0 {
            1int
        } else {
            2int
        },
        spec_pair(r@[0], "thumbs"@, "true"@),
        api_key@.len() > 0 ==> spec_pair(r@[1], "api_key"@, api_key@),
{
    let mut query: Vec<(String, String)> = Vec::new();
    query.push(("thumbs".to_owned(), "true".to_owned()));
    if !api_key.is_empty() {
        query.push(("api_key".to_owned(), api_key.to_owned()));
    }
    query
}

/// A dated-window query in snake case (`start_date`/`end_date`), as the
/// near-Earth-object feed wants it, with the API key when configured.
pub fn snake_window_query(start_date: &str, end_date: &str, api_key: &str) -> (r: Vec<
    (String, String),
>)
    ensures
        r@.len() == if api_key@.len() == 0 {
            2int
        } else {
            3int
        },
        spec_pair(r@[0], "start_date"@, start_date@),
        spec_pair(r@[1], "end_date"@, end_date@),
        api_key@.len() > 0 ==> spec_pair(r@[2], "api_key"@, api_key@),
{
    let mut query: Vec<(String, String)> = Vec::new();
    query.push(("start_date".to_owned(), start_date.to_owned()));
    query.push(("end_date".to_owned(), end_date.to_owned()));
    if !api_key.is_empty() {
        query.push(("api_key".to_owned(), api_key.to_owned()));
    }
    query
}

/// A dated-window query in camel case (`startDate`/`endDate`), as the
/// solar-event feeds want it, with the API key when configured.
pub fn camel_window_query(start_date: &str, end_date: &str, api_key: &str) -> (r: Vec<
    (String, String),
>)
    ensures
        r@.len() == if api_key@.len() == 0 {
            2int
        } else {
            3int
        },
        spec_pair(r@[0], "startDate"@, start_date@),
        spec_pair(r@[1], "endDate"@, end_date@),
        api_key@.len() > 0 ==> spec_pair(r@[2], "api_key"@, api_key@),
{
    let mut query: Vec<(String, String)> = Vec::new();
    query.push(("startDate".to_owned(), start_date.to_owned()));
    query.push(("endDate".to_owned(), end_date.to_owned()));
    if !api_key.is_empty() {
        query.push(("api_key".to_owned(), api_key.to_owned()));
    }
    query
}

/// The catalogue query: just the API key, when one is configured.
pub fn osdr_query(api_key: &str) -> (r: Vec<(String, String)>)
    ensures
        r@.len() == if api_key@.len() == 0 {
            0int
        } else {
            1int
        },
        api_key@.len() > 0 ==> spec_pair(r@[0], "api_key"@, api_key@),
{
    let mut query: Vec<(String, String)> = Vec::new();
    if !api_key.is_empty() {
        query.push(("api_key".to_owned(), api_key.to_owned()));
    }
    query
}

/// Tags a transport failure with the service it came from: the message is
/// the service name, `" error: "`, and the underlying diagnostic.
pub fn external_api_error(service: &str, detail: &str) -> (r: ApiError)
    ensures
        r matches ApiError::ExternalApi(m) && m@ == service@ + " error: "@ + detail@,
{
    let mut message: String = service.to_owned();
    message.append(" error: ");
    message.append(detail);
    ApiError::ExternalApi(message)
}

} // verus!
