//! The append-only satellite-position log and its derivations.
//!
//! Every successful fetch appends one observation; nothing is ever updated
//! or deleted. The trend derivation compares the two most recent
//! observations. Coordinates reach this module as payload fields that are
//! either native number tokens or strings; the trend carries them through
//! as found, together with the elapsed time between the observations.

use vstd::prelude::*;
use crate::errors::ApiError;
use crate::json::JsonValue;
use crate::validation::{spec_iss_payload_ok, validate_iss_payload};

verus! {

/// Timestamps are accepted within this many milliseconds of the epoch
/// (about 270 millennia), so differences of two of them never overflow.
pub const TS_BOUND_MS: i64 = 8_640_000_000_000_000;

/// One stored observation of the tracked satellite.
#[derive(Debug)]
pub struct IssRecord {
    /// Store-assigned identity; the `i + 1`-th inserted row has identity
    /// `i + 1`.
    pub id: i64,
    pub fetched_at_ms: i64,
    pub source_url: String,
    pub payload: JsonValue,
}

/// The append-only position log, newest row last.
#[derive(Debug)]
pub struct IssRepo {
    pub rows: Vec<IssRecord>,
}

/// A coordinate or velocity field as it occurred in a payload: an
/// integer, a non-integer number token, or a string that still needs
/// numeric interpretation.
#[derive(Debug, PartialEq)]
pub enum NumberCandidate {
    Int(i64),
    Num(String),
    Text(String),
}

/// The comparison of the two most recent observations. Distances are not
/// derived here: the coordinates are handed through as found, so a caller
/// owning numeric evaluation can finish the computation.
#[derive(Debug, PartialEq)]
pub struct Trend {
    /// Whether two observations existed at all.
    pub has_points: bool,
    pub from_time_ms: Option<i64>,
    pub to_time_ms: Option<i64>,
    /// Elapsed milliseconds between the two observations; 0 without them.
    pub dt_ms: i64,
    /// The newer observation's velocity field, as found.
    pub velocity: Option<NumberCandidate>,
    pub from_lat: Option<NumberCandidate>,
    pub from_lon: Option<NumberCandidate>,
    pub to_lat: Option<NumberCandidate>,
    pub to_lon: Option<NumberCandidate>,
}

/// The coordinate-or-velocity field `key` of `payload`, as found.
pub open spec fn spec_candidate(payload: JsonValue, key: Seq<char>) -> Option<NumberCandidate> {
    match payload.spec_get(key) {
        Some(JsonValue::Int(n)) => Some(NumberCandidate::Int(n)),
        Some(JsonValue::Num(s)) => Some(NumberCandidate::Num(s)),
        Some(JsonValue::Str(s)) => Some(NumberCandidate::Text(s)),
        _ => None,
    }
}

/// Reads a coordinate-or-velocity field out of a payload.
pub fn extract_number_candidate(payload: &JsonValue, key: &str) -> (r: Option<NumberCandidate>)
    ensures
        r == spec_candidate(*payload, key@),
{
    match payload.get(key) {
        Some(JsonValue::Int(n)) => Some(NumberCandidate::Int(*n)),
        Some(JsonValue::Num(s)) => Some(NumberCandidate::Num(s.clone())),
        Some(JsonValue::Str(s)) => Some(NumberCandidate::Text(s.clone())),
        _ => None,
    }
}

impl IssRepo {
    /// Rows are dense: the `i`-th row carries identity `i + 1`, and every
    /// timestamp lies within the representable window.
    pub open spec fn wf(&self) -> bool {
        &&& self.rows@.len() < 0x7fff_ffff_ffff_ffff
        &&& forall|i: int|
            0 <= i < self.rows@.len() ==> (#[trigger] self.rows@[i]).id == i + 1
        &&& forall|i: int|
            0 <= i < self.rows@.len() ==> -TS_BOUND_MS
                <= (#[trigger] self.rows@[i]).fetched_at_ms <= TS_BOUND_MS
    }

    pub fn new() -> (r: IssRepo)
        ensures
            r.wf(),
            r.rows@.len() == 0,
    {
        IssRepo { rows: Vec::new() }
    }

    /// Appends one observation; the store assigns the next identity.
    pub fn insert(&mut self, source_url: String, payload: JsonValue, now_ms: i64)
        requires
            old(self).wf(),
            old(self).rows@.len() + 1 < 0x7fff_ffff_ffff_ffff,
            -TS_BOUND_MS <= now_ms <= TS_BOUND_MS,
        ensures
            final(self).wf(),
            final(self).rows@ == old(self).rows@.push(IssRecord {
                id: (old(self).rows@.len() + 1) as i64,
                fetched_at_ms: now_ms,
                source_url: source_url,
                payload: payload,
            }),
    {
        let id = self.rows.len() as i64 + 1;
        self.rows.push(IssRecord { id, fetched_at_ms: now_ms, source_url, payload });
    }

    /// The most recent observation, if any.
    pub fn get_last(&self) -> (r: Option<&IssRecord>)
        ensures
            match r {
                Some(rec) => self.rows@.len() > 0 && *rec == self.rows@.last(),
                None => self.rows@.len() == 0,
            },
    {
        if self.rows.len() == 0 {
            None
        } else {
            Some(&self.rows[self.rows.len() - 1])
        }
    }

    /// Up to `limit` most recent observations, newest first.
    pub fn get_trend_points(&self, limit: usize) -> (r: Vec<&IssRecord>)
        ensures
            r@.len() == if limit <= self.rows@.len() {
                limit as int
            } else {
                self.rows@.len() as int
            },
            forall|i: int|
                0 <= i < r@.len() ==> r@[i] == self.rows@[self.rows@.len() - 1 - i],
    {
        let mut out: Vec<&IssRecord> = Vec::new();
        let n = self.rows.len();
        let take = if limit <= n {
            limit
        } else {
            n
        };
        for i in 0..take
            invariant
                take <= n,
                n == self.rows@.len(),
                out@.len() == i,
                forall|j: int| 0 <= j < i ==> out@[j] == self.rows@[n - 1 - j],
        {
            out.push(&self.rows[n - 1 - i]);
        }
        out
    }
}

/// Orchestrates the position flow: validates fetched payloads, appends
/// them to the log, and derives the trend.
#[derive(Debug)]
pub struct IssService {
    pub repo: IssRepo,
}

/// The trend that a log with fewer than two observations yields.
pub open spec fn spec_empty_trend() -> Trend {
    Trend {
        has_points: false,
        from_time_ms: None,
        to_time_ms: None,
        dt_ms: 0,
        velocity: None,
        from_lat: None,
        from_lon: None,
        to_lat: None,
        to_lon: None,
    }
}

impl IssService {
    pub fn new(repo: IssRepo) -> (r: IssService)
        ensures
            r.repo == repo,
    {
        IssService { repo }
    }

    /// The most recent observation, if any.
    pub fn get_last(&self) -> (r: Option<&IssRecord>)
        ensures
            match r {
                Some(rec) => self.repo.rows@.len() > 0 && *rec == self.repo.rows@.last(),
                None => self.repo.rows@.len() == 0,
            },
    {
        self.repo.get_last()
    }

    /// Validates a fetched payload and appends it to the log. A payload
    /// without coordinates is refused with a validation error and the log
    /// is left untouched; every acceptable payload is appended as a fresh
    /// row, with no deduplication.
    pub fn fetch_and_store(&mut self, source_url: String, payload: JsonValue, now_ms: i64) -> (r:
        Result<(), ApiError>)
        requires
            old(self).repo.wf(),
            old(self).repo.rows@.len() + 1 < 0x7fff_ffff_ffff_ffff,
            -TS_BOUND_MS <= now_ms <= TS_BOUND_MS,
        ensures
            final(self).repo.wf(),
            spec_iss_payload_ok(&payload) ==> r is Ok
                && final(self).repo.rows@ == old(self).repo.rows@.push(IssRecord {
                id: (old(self).repo.rows@.len() + 1) as i64,
                fetched_at_ms: now_ms,
                source_url: source_url,
                payload: payload,
            }),
            !spec_iss_payload_ok(&payload) ==> (r matches Err(ApiError::Validation(_)))
                && final(self).repo.rows@ == old(self).repo.rows@,
    {
        match validate_iss_payload(&payload) {
            Ok(()) => {
                self.repo.insert(source_url, payload, now_ms);
                Ok(())
            },
            Err(reason) => {
                let mut message: String = "ISS payload validation failed: ".to_owned();
                message.append(reason.as_str());
                Err(ApiError::Validation(message))
            },
        }
    }

    /// Compares the two most recent observations. With fewer than two,
    /// everything is empty and the elapsed time is zero; otherwise the
    /// two observations' times, coordinate fields and the newer
    /// observation's velocity are handed through as found.
    pub fn calculate_trend(&self) -> (r: Trend)
        requires
            self.repo.wf(),
        ensures
            self.repo.rows@.len() < 2 ==> r == spec_empty_trend(),
            self.repo.rows@.len() >= 2 ==> {
                let older = self.repo.rows@[self.repo.rows@.len() - 2];
                let newer = self.repo.rows@[self.repo.rows@.len() - 1];
                &&& r.has_points
                &&& r.from_time_ms == Some(older.fetched_at_ms)
                &&& r.to_time_ms == Some(newer.fetched_at_ms)
                &&& r.dt_ms == newer.fetched_at_ms - older.fetched_at_ms
                &&& r.velocity == spec_candidate(newer.payload, "velocity"@)
                &&& r.from_lat == spec_candidate(older.payload, "latitude"@)
                &&& r.from_lon == spec_candidate(older.payload, "longitude"@)
                &&& r.to_lat == spec_candidate(newer.payload, "latitude"@)
                &&& r.to_lon == spec_candidate(newer.payload, "longitude"@)
            },
    {
        let n = self.repo.rows.len();
        if n < 2 {
            return Trend {
                has_points: false,
                from_time_ms: None,
                to_time_ms: None,
                dt_ms: 0,
                velocity: None,
                from_lat: None,
                from_lon: None,
                to_lat: None,
                to_lon: None,
            };
        }
        let older = &self.repo.rows[n - 2];
        let newer = &self.repo.rows[n - 1];
        Trend {
            has_points: true,
            from_time_ms: Some(older.fetched_at_ms),
            to_time_ms: Some(newer.fetched_at_ms),
            dt_ms: newer.fetched_at_ms - older.fetched_at_ms,
            velocity: extract_number_candidate(&newer.payload, "velocity"),
            from_lat: extract_number_candidate(&older.payload, "latitude"),
            from_lon: extract_number_candidate(&older.payload, "longitude"),
            to_lat: extract_number_candidate(&newer.payload, "latitude"),
            to_lon: extract_number_candidate(&newer.payload, "longitude"),
        }
    }
}

} // verus!
