//! The dataset-catalogue store and its sync rules.
//!
//! Each catalogue element is normalized (business key, title and status
//! from ordered candidate field lists; an update time from several
//! accepted formats) and then upserted: at most one row exists per
//! non-null business key, while key-less rows always insert fresh. A sync
//! is all-or-nothing: if any element of the fetched batch is not a
//! structured object, nothing is written.

use vstd::prelude::*;
use vstd::string::StrSliceExecFns;
use vstd::string::StringExecFns;
use vstd::pervasive::unreached;
use crate::errors::ApiError;
use crate::json::{str_eq, JsonValue};
use crate::datetime::{
    parse_rfc3339_utc_ms, parse_space_datetime_utc_ms, epoch_seconds_to_utc_ms, rfc3339_utc_ms,
    space_datetime_utc_ms, spec_epoch_ms,
};
use crate::validation::{spec_osdr_item_ok, validate_osdr_item};

verus! {

/// One catalogue row.
#[derive(Debug)]
pub struct OsdrItem {
    /// Store-assigned identity; the `i`-th row carries `i + 1`.
    pub id: i64,
    /// The external system's own identifier: the business key.
    pub dataset_id: Option<String>,
    pub title: Option<String>,
    pub status: Option<String>,
    /// Source-reported update time, epoch milliseconds.
    pub updated_at_ms: Option<i64>,
    /// Store-assigned insertion time, epoch milliseconds.
    pub inserted_at_ms: i64,
    /// The whole element as fetched.
    pub raw: JsonValue,
}

/// The mathematical shape of a catalogue row.
pub struct OsdrRowView {
    pub id: i64,
    pub dataset_id: Option<Seq<char>>,
    pub title: Option<Seq<char>>,
    pub status: Option<Seq<char>>,
    pub updated_at_ms: Option<i64>,
    pub inserted_at_ms: i64,
    pub raw: JsonValue,
}

impl View for OsdrItem {
    type V = OsdrRowView;

    open spec fn view(&self) -> OsdrRowView {
        OsdrRowView {
            id: self.id,
            dataset_id: match self.dataset_id {
                Some(s) => Some(s@),
                None => None,
            },
            title: match self.title {
                Some(s) => Some(s@),
                None => None,
            },
            status: match self.status {
                Some(s) => Some(s@),
                None => None,
            },
            updated_at_ms: self.updated_at_ms,
            inserted_at_ms: self.inserted_at_ms,
            raw: self.raw,
        }
    }
}

/// The upsert-by-business-key catalogue store, in insertion order.
#[derive(Debug)]
pub struct OsdrRepo {
    pub rows: Vec<OsdrItem>,
}

/// The first row carrying business key `k`, if any.
pub open spec fn spec_find_key(rows: Seq<OsdrRowView>, k: Seq<char>) -> Option<int>
    decreases rows.len(),
{
    if rows.len() <= 0 {
        None
    } else if rows[0].dataset_id == Some(k) {
        Some(0)
    } else {
        match spec_find_key(rows.skip(1), k) {
            Some(j) => Some(j + 1),
            None => None,
        }
    }
}

/// No two rows share a non-null business key.
pub open spec fn spec_unique_keys(rows: Seq<OsdrRowView>) -> bool {
    forall|i: int, j: int|
        0 <= i < j < rows.len() ==> !((#[trigger] rows[i]).dataset_id is Some
            && rows[i].dataset_id == (#[trigger] rows[j]).dataset_id)
}

/// The row that an upsert of `item` appends when no row carries its key:
/// the item under the next identity.
pub open spec fn spec_appended(rows: Seq<OsdrRowView>, item: OsdrRowView) -> OsdrRowView {
    OsdrRowView {
        id: (rows.len() + 1) as i64,
        dataset_id: item.dataset_id,
        title: item.title,
        status: item.status,
        updated_at_ms: item.updated_at_ms,
        inserted_at_ms: item.inserted_at_ms,
        raw: item.raw,
    }
}

/// What an upsert leaves in the store: with a business key that some row
/// already carries, that row's title, status, update time and raw payload
/// are overwritten in place (identity and insertion time kept); otherwise
/// the item is appended as a fresh row.
pub open spec fn spec_upsert(rows: Seq<OsdrRowView>, item: OsdrRowView) -> Seq<OsdrRowView> {
    match item.dataset_id {
        Some(k) => match spec_find_key(rows, k) {
            Some(j) => rows.update(
                j,
                OsdrRowView {
                    id: rows[j].id,
                    dataset_id: item.dataset_id,
                    title: item.title,
                    status: item.status,
                    updated_at_ms: item.updated_at_ms,
                    inserted_at_ms: rows[j].inserted_at_ms,
                    raw: item.raw,
                },
            ),
            None => rows.push(spec_appended(rows, item)),
        },
        None => rows.push(spec_appended(rows, item)),
    }
}

/// Wherever `spec_find_key` points, that row is the first carrying the
/// key; wherever it points nowhere, no row carries it.
proof fn lemma_find_key_props(rows: Seq<OsdrRowView>, k: Seq<char>)
    ensures
        match spec_find_key(rows, k) {
            Some(j) => 0 <= j < rows.len() && rows[j].dataset_id == Some(k) && forall|m: int|
                0 <= m < j ==> (#[trigger] rows[m]).dataset_id != Some(k),
            None => forall|m: int|
                0 <= m < rows.len() ==> (#[trigger] rows[m]).dataset_id != Some(k),
        },
    decreases rows.len(),
{
    if rows.len() > 0 && rows[0].dataset_id != Some(k) {
        lemma_find_key_props(rows.skip(1), k);
        assert forall|m: int| 1 <= m < rows.len() implies rows.skip(1)[m - 1] == rows[m] by {}
    }
}

/// A key first matched at `j` is found at `j`.
proof fn lemma_find_key_at(rows: Seq<OsdrRowView>, k: Seq<char>, j: int)
    requires
        0 <= j < rows.len(),
        rows[j].dataset_id == Some(k),
        forall|m: int| 0 <= m < j ==> (#[trigger] rows[m]).dataset_id != Some(k),
    ensures
        spec_find_key(rows, k) == Some(j),
    decreases j,
{
    if j > 0 {
        assert forall|m: int| 0 <= m < j - 1 implies (#[trigger] rows.skip(1)[m]).dataset_id
            != Some(k) by {
            assert(rows.skip(1)[m] == rows[m + 1]);
        }
        assert(rows.skip(1)[j - 1] == rows[j]);
        lemma_find_key_at(rows.skip(1), k, j - 1);
    }
}

/// A key no row carries is found nowhere.
proof fn lemma_find_key_none(rows: Seq<OsdrRowView>, k: Seq<char>)
    requires
        forall|m: int| 0 <= m < rows.len() ==> (#[trigger] rows[m]).dataset_id != Some(k),
    ensures
        spec_find_key(rows, k) is None,
    decreases rows.len(),
{
    if rows.len() > 0 {
        assert forall|m: int| 0 <= m < rows.len() - 1 implies (#[trigger] rows.skip(
            1,
        )[m]).dataset_id != Some(k) by {
            assert(rows.skip(1)[m] == rows[m + 1]);
        }
        lemma_find_key_none(rows.skip(1), k);
    }
}

impl OsdrRepo {
    /// The rows as their mathematical shapes.
    pub open spec fn rows_view(&self) -> Seq<OsdrRowView> {
        Seq::new(self.rows@.len(), |i: int| self.rows@[i]@)
    }

    /// Rows are dense (the `i`-th carries identity `i + 1`) and non-null
    /// business keys are unique.
    pub open spec fn wf(&self) -> bool {
        &&& self.rows@.len() < 0x7fff_ffff_ffff_ffff
        &&& forall|i: int|
            0 <= i < self.rows@.len() ==> (#[trigger] self.rows_view()[i]).id == i + 1
        &&& spec_unique_keys(self.rows_view())
    }

    pub fn new() -> (r: OsdrRepo)
        ensures
            r.wf(),
            r.rows@.len() == 0,
    {
        OsdrRepo { rows: Vec::new() }
    }

    /// The first row carrying business key `key`, if any.
    #[verifier::loop_isolation(false)]
    fn find_key(&self, key: &str) -> (r: Option<usize>)
        ensures
            match r {
                Some(j) => j < self.rows@.len() && spec_find_key(self.rows_view(), key@) == Some(
                    j as int,
                ),
                None => spec_find_key(self.rows_view(), key@) is None,
            },
    {
        let n = self.rows.len();
        for j in 0..n
            invariant
                forall|m: int|
                    0 <= m < j ==> (#[trigger] self.rows_view()[m]).dataset_id != Some(key@),
        {
            let matched = match &self.rows[j].dataset_id {
                Some(existing) => str_eq(existing.as_str(), key),
                None => false,
            };
            if matched {
                proof {
                    lemma_find_key_at(self.rows_view(), key@, j as int);
                }
                return Some(j);
            }
        }
        proof {
            lemma_find_key_none(self.rows_view(), key@);
        }
        None
    }

    /// Insert-or-update by business key. The store's shape afterwards is
    /// exactly `spec_upsert` of its shape before.
    pub fn upsert(&mut self, item: OsdrItem)
        requires
            old(self).wf(),
            old(self).rows@.len() + 1 < 0x7fff_ffff_ffff_ffff,
        ensures
            final(self).wf(),
            final(self).rows_view() == spec_upsert(old(self).rows_view(), item@),
            final(self).rows@.len() <= old(self).rows@.len() + 1,
    {
        let found = match &item.dataset_id {
            Some(k) => self.find_key(k.as_str()),
            None => None,
        };
        match found {
            Some(j) => {
                let id = self.rows[j].id;
                let inserted_at_ms = self.rows[j].inserted_at_ms;
                let OsdrItem { id: _, dataset_id, title, status, updated_at_ms, inserted_at_ms: _, raw } = item;
                self.rows[j] = OsdrItem { id, dataset_id, title, status, updated_at_ms, inserted_at_ms, raw };
                proof {
                    assert(self.rows_view() =~= spec_upsert(old(self).rows_view(), item@));
                }
            },
            None => {
                let id = self.rows.len() as i64 + 1;
                let OsdrItem { id: _, dataset_id, title, status, updated_at_ms, inserted_at_ms, raw } = item;
                self.rows.push(OsdrItem { id, dataset_id, title, status, updated_at_ms, inserted_at_ms, raw });
                proof {
                    assert(self.rows_view() =~= spec_upsert(old(self).rows_view(), item@));
                }
            },
        }
        proof {
            lemma_upsert_preserves_wf(old(self).rows_view(), item@);
        }
    }

    /// Up to `limit` rows, most recently inserted first.
    pub fn list(&self, limit: usize) -> (r: Vec<&OsdrItem>)
        ensures
            r@.len() == if limit <= self.rows@.len() {
                limit as int
            } else {
                self.rows@.len() as int
            },
            forall|i: int|
                0 <= i < r@.len() ==> r@[i] == self.rows@[self.rows@.len() - 1 - i],
    {
        let mut out: Vec<&OsdrItem> = Vec::new();
        let n = self.rows.len();
        let take = if limit <= n {
            limit
        } else {
            n
        };
        for i in 0..take
            invariant
                take <= n,
                n == self.rows@.len(),
                out@.len() == i,
                forall|j: int| 0 <= j < i ==> out@[j] == self.rows@[n - 1 - j],
        {
            out.push(&self.rows[n - 1 - i]);
        }
        out
    }

    /// How many rows the catalogue holds.
    pub fn count(&self) -> (r: usize)
        ensures
            r == self.rows@.len(),
    {
        self.rows.len()
    }
}

/// An upsert into a well-shaped store leaves identities dense and keys
/// unique.
proof fn lemma_upsert_preserves_wf(rows: Seq<OsdrRowView>, item: OsdrRowView)
    requires
        spec_unique_keys(rows),
        forall|i: int| 0 <= i < rows.len() ==> (#[trigger] rows[i]).id == i + 1,
        rows.len() + 1 < 0x7fff_ffff_ffff_ffff,
    ensures
        spec_unique_keys(spec_upsert(rows, item)),
        forall|i: int|
            0 <= i < spec_upsert(rows, item).len() ==> (#[trigger] spec_upsert(rows, item)[i]).id
                == i + 1,
        rows.len() <= spec_upsert(rows, item).len() <= rows.len() + 1,
{
    let rows2 = spec_upsert(rows, item);
    match item.dataset_id {
        Some(k) => {
            lemma_find_key_props(rows, k);
            match spec_find_key(rows, k) {
                Some(j) => {
                    assert(rows2[j].dataset_id == rows[j].dataset_id);
                    assert forall|a: int, b: int| 0 <= a < b < rows2.len() implies !((
                    #[trigger] rows2[a]).dataset_id is Some && rows2[a].dataset_id == (
                    #[trigger] rows2[b]).dataset_id) by {
                        assert(rows2[a].dataset_id == rows[a].dataset_id);
                        assert(rows2[b].dataset_id == rows[b].dataset_id);
                    }
                },
                None => {},
            }
        },
        None => {},
    }
}

/// The first candidate field of `v` that yields a non-empty string or a
/// number; numbers are taken as their decimal text.
pub open spec fn spec_string_candidate(v: JsonValue, key: Seq<char>) -> Option<Seq<char>> {
    match v.spec_get(key) {
        Some(JsonValue::Str(s)) => if s@.len() > 0 {
            Some(s@)
        } else {
            None
        },
        Some(JsonValue::Int(n)) => Some(crate::text::spec_i64_string(n as int)),
        Some(JsonValue::Num(tok)) => Some(tok@),
        _ => None,
    }
}

/// The first of the candidate fields that yields a value.
pub open spec fn spec_extract_string(v: JsonValue, keys: Seq<Seq<char>>) -> Option<Seq<char>>
    decreases keys.len(),
{
    if keys.len() <= 0 {
        None
    } else {
        match spec_string_candidate(v, keys[0]) {
            Some(s) => Some(s),
            None => spec_extract_string(v, keys.skip(1)),
        }
    }
}

/// What one candidate field contributes to the update time: nothing (keep
/// looking), or a terminal answer that may itself be empty (an epoch
/// count out of calendar range ends the search with no time).
pub open spec fn spec_datetime_candidate(v: JsonValue, key: Seq<char>) -> Option<Option<i64>> {
    match v.spec_get(key) {
        Some(JsonValue::Str(s)) => if rfc3339_utc_ms(s@) is Some {
            Some(rfc3339_utc_ms(s@))
        } else if space_datetime_utc_ms(s@) is Some {
            Some(space_datetime_utc_ms(s@))
        } else {
            None
        },
        Some(JsonValue::Int(n)) => Some(spec_epoch_ms(n)),
        _ => None,
    }
}

/// The update time the candidate fields yield, searched in order.
pub open spec fn spec_extract_datetime(v: JsonValue, keys: Seq<Seq<char>>) -> Option<i64>
    decreases keys.len(),
{
    if keys.len() <= 0 {
        None
    } else {
        match spec_datetime_candidate(v, keys[0]) {
            Some(x) => x,
            None => spec_extract_datetime(v, keys.skip(1)),
        }
    }
}

/// The views of a list of candidate field names.
pub open spec fn spec_key_views(keys: Seq<&str>) -> Seq<Seq<char>> {
    Seq::new(keys.len(), |i: int| keys[i]@)
}

/// Takes the first of the candidate fields that holds a non-empty string,
/// or a number (stringified), left to right.
#[verifier::loop_isolation(false)]
pub fn extract_string(v: &JsonValue, keys: &Vec<&str>) -> (r: Option<String>)
    ensures
        match r {
            Some(s) => spec_extract_string(*v, spec_key_views(keys@)) == Some(s@),
            None => spec_extract_string(*v, spec_key_views(keys@)) is None,
        },
{
    let ghost kv = spec_key_views(keys@);
    let n = keys.len();
    proof {
        assert(kv.skip(0) =~= kv);
    }
    for i in 0..n
        invariant
            spec_extract_string(*v, kv.skip(i as int)) == spec_extract_string(*v, kv),
    {
        proof {
            assert(kv.skip(i as int)[0] == kv[i as int]);
        }
        match v.get(keys[i]) {
            Some(JsonValue::Str(s)) => {
                if !s.as_str().is_empty() {
                    return Some(s.clone());
                }
            },
            Some(JsonValue::Int(m)) => {
                return Some(crate::text::i64_to_string(*m));
            },
            Some(JsonValue::Num(tok)) => {
                return Some(tok.clone());
            },
            _ => {},
        }
        proof {
            assert(kv.skip(i as int).skip(1) =~= kv.skip(i as int + 1));
        }
    }
    proof {
        assert(kv.skip(n as int).len() == 0);
    }
    None
}

/// Takes the update time from the first candidate field that decides it:
/// an RFC 3339 string, the plain datetime pattern read as UTC, or an
/// epoch-second count.
#[verifier::loop_isolation(false)]
pub fn extract_datetime(v: &JsonValue, keys: &Vec<&str>) -> (r: Option<i64>)
    ensures
        r == spec_extract_datetime(*v, spec_key_views(keys@)),
{
    let ghost kv = spec_key_views(keys@);
    let n = keys.len();
    proof {
        assert(kv.skip(0) =~= kv);
    }
    for i in 0..n
        invariant
            spec_extract_datetime(*v, kv.skip(i as int)) == spec_extract_datetime(*v, kv),
    {
        proof {
            assert(kv.skip(i as int)[0] == kv[i as int]);
        }
        match v.get(keys[i]) {
            Some(JsonValue::Str(s)) => {
                match parse_rfc3339_utc_ms(s.as_str()) {
                    Some(ms) => {
                        return Some(ms);
                    },
                    None => {
                        match parse_space_datetime_utc_ms(s.as_str()) {
                            Some(ms) => {
                                return Some(ms);
                            },
                            None => {},
                        }
                    },
                }
            },
            Some(JsonValue::Int(m)) => {
                return epoch_seconds_to_utc_ms(*m);
            },
            _ => {},
        }
        proof {
            assert(kv.skip(i as int).skip(1) =~= kv.skip(i as int + 1));
        }
    }
    proof {
        assert(kv.skip(n as int).len() == 0);
    }
    None
}

/// The candidate fields for the business key, in search order.
pub open spec fn spec_id_keys() -> Seq<Seq<char>> {
    seq!["dataset_id"@, "id"@, "uuid"@, "studyId"@, "accession"@, "osdr_id"@]
}

/// The candidate fields for the title, in search order.
pub open spec fn spec_title_keys() -> Seq<Seq<char>> {
    seq!["title"@, "name"@, "label"@]
}

/// The candidate fields for the status, in search order.
pub open spec fn spec_status_keys() -> Seq<Seq<char>> {
    seq!["status"@, "state"@, "lifecycle"@]
}

/// The candidate fields for the update time, in search order.
pub open spec fn spec_datetime_keys() -> Seq<Seq<char>> {
    seq!["updated"@, "updated_at"@, "modified"@, "lastUpdated"@, "timestamp"@]
}

/// What normalization makes of one catalogue element: extracted business
/// key, title, status and update time, the insertion time, and the raw
/// element; the store assigns the identity later.
pub open spec fn spec_normalize(item: JsonValue, now_ms: i64) -> OsdrRowView {
    OsdrRowView {
        id: 0,
        dataset_id: spec_extract_string(item, spec_id_keys()),
        title: spec_extract_string(item, spec_title_keys()),
        status: spec_extract_string(item, spec_status_keys()),
        updated_at_ms: spec_extract_datetime(item, spec_datetime_keys()),
        inserted_at_ms: now_ms,
        raw: item,
    }
}

/// The elements a catalogue payload carries: the payload itself when it
/// is a bare array, else its `items` or `results` array, else the payload
/// alone as a single element.
pub open spec fn spec_sync_items(payload: JsonValue) -> Seq<JsonValue> {
    match payload {
        JsonValue::Arr(v) => v@,
        _ => match payload.spec_get("items"@) {
            Some(JsonValue::Arr(v)) => v@,
            _ => match payload.spec_get("results"@) {
                Some(JsonValue::Arr(v)) => v@,
                _ => seq![payload],
            },
        },
    }
}

/// Whether every element of a batch is a structured object.
pub open spec fn spec_all_objects(items: Seq<JsonValue>) -> bool {
    forall|i: int| 0 <= i < items.len() ==> (#[trigger] items[i]).spec_is_object()
}

/// The store contents after upserting every element of a batch in order.
pub open spec fn spec_apply_sync(rows: Seq<OsdrRowView>, items: Seq<JsonValue>, now_ms: i64) -> Seq<
    OsdrRowView,
>
    decreases items.len(),
{
    if items.len() == 0 {
        rows
    } else {
        spec_apply_sync(spec_upsert(rows, spec_normalize(items[0], now_ms)), items.skip(1), now_ms)
    }
}

/// Matching a field first found at index `idx`.
proof fn lemma_lookup_at(fields: Seq<(String, JsonValue)>, key: Seq<char>, idx: int)
    requires
        0 <= idx < fields.len(),
        fields[idx].0@ == key,
        forall|m: int| 0 <= m < idx ==> (#[trigger] fields[m]).0@ != key,
    ensures
        crate::json::spec_lookup(fields, key) == Some(fields[idx].1),
    decreases idx,
{
    if idx > 0 {
        assert forall|m: int| 0 <= m < idx - 1 implies (#[trigger] fields.skip(1)[m]).0@ != key by {
            assert(fields.skip(1)[m] == fields[m + 1]);
        }
        assert(fields.skip(1)[idx - 1] == fields[idx]);
        lemma_lookup_at(fields.skip(1), key, idx - 1);
    }
}

/// A field no entry carries is looked up in vain.
proof fn lemma_lookup_none(fields: Seq<(String, JsonValue)>, key: Seq<char>)
    requires
        forall|m: int| 0 <= m < fields.len() ==> (#[trigger] fields[m]).0@ != key,
    ensures
        crate::json::spec_lookup(fields, key) is None,
    decreases fields.len(),
{
    if fields.len() > 0 {
        assert forall|m: int| 0 <= m < fields.len() - 1 implies (#[trigger] fields.skip(
            1,
        )[m]).0@ != key by {
            assert(fields.skip(1)[m] == fields[m + 1]);
        }
        lemma_lookup_none(fields.skip(1), key);
    }
}

/// Moves the named top-level array out of an object payload; any other
/// payload comes back unchanged.
#[verifier::loop_isolation(false)]
fn take_array_field(v: JsonValue, key: &str) -> (r: Result<Vec<JsonValue>, JsonValue>)
    ensures
        match r {
            Ok(arr) => v.spec_get(key@) == Some(JsonValue::Arr(arr)),
            Err(w) => w == v && !(v.spec_get(key@) matches Some(JsonValue::Arr(_))),
        },
{
    match v {
        JsonValue::Obj(mut fields) => {
            let n = fields.len();
            let mut idx: usize = 0;
            let mut found = false;
            for i in 0..n
                invariant
                    !found ==> idx == 0 && forall|m: int|
                        0 <= m < i ==> (#[trigger] fields@[m]).0@ != key@,
                    found ==> idx < n && fields@[idx as int].0@ == key@ && forall|m: int|
                        0 <= m < idx ==> (#[trigger] fields@[m]).0@ != key@,
            {
                if !found {
                    if str_eq(fields[i].0.as_str(), key) {
                        idx = i;
                        found = true;
                    }
                }
            }
            if !found {
                proof {
                    lemma_lookup_none(fields@, key@);
                }
                return Err(JsonValue::Obj(fields));
            }
            proof {
                lemma_lookup_at(fields@, key@, idx as int);
            }
            if fields[idx].1.is_array() {
                let pair = fields.remove(idx);
                match pair.1 {
                    JsonValue::Arr(arr) => Ok(arr),
                    _ => unreached(),
                }
            } else {
                Err(JsonValue::Obj(fields))
            }
        },
        other => Err(other),
    }
}

/// Orchestrates the catalogue flow: splits a fetched payload into its
/// elements, validates and normalizes each, and upserts them.
#[derive(Debug)]
pub struct OsdrService {
    pub repo: OsdrRepo,
    /// The catalogue endpoint the caller fetches from.
    pub nasa_url: String,
    /// The API key the caller appends when non-empty.
    pub nasa_key: String,
}

impl OsdrService {
    pub fn new(repo: OsdrRepo, nasa_url: String, nasa_key: String) -> (r: OsdrService)
        ensures
            r.repo == repo,
            r.nasa_url == nasa_url,
            r.nasa_key == nasa_key,
    {
        OsdrService { repo, nasa_url, nasa_key }
    }

    /// Up to `limit` rows, most recently inserted first.
    pub fn list(&self, limit: usize) -> (r: Vec<&OsdrItem>)
        ensures
            r@.len() == if limit <= self.repo.rows@.len() {
                limit as int
            } else {
                self.repo.rows@.len() as int
            },
            forall|i: int|
                0 <= i < r@.len() ==> r@[i] == self.repo.rows@[self.repo.rows@.len() - 1 - i],
    {
        self.repo.list(limit)
    }

    /// Validates and normalizes one catalogue element.
    pub fn parse_item(&self, item: JsonValue, now_ms: i64) -> (r: Result<OsdrItem, ApiError>)
        ensures
            spec_osdr_item_ok(&item) ==> (r matches Ok(o) && o@ == spec_normalize(item, now_ms)),
            !spec_osdr_item_ok(&item) ==> (r matches Err(ApiError::Validation(_))),
    {
        match validate_osdr_item(&item) {
            Ok(()) => {},
            Err(reason) => {
                let mut message: String = "OSDR item validation failed: ".to_owned();
                message.append(reason.as_str());
                return Err(ApiError::Validation(message));
            },
        }
        let id_keys: Vec<&str> = vec!["dataset_id", "id", "uuid", "studyId", "accession", "osdr_id"];
        let title_keys: Vec<&str> = vec!["title", "name", "label"];
        let status_keys: Vec<&str> = vec!["status", "state", "lifecycle"];
        let dt_keys: Vec<&str> = vec!["updated", "updated_at", "modified", "lastUpdated", "timestamp"];
        let dataset_id = extract_string(&item, &id_keys);
        let title = extract_string(&item, &title_keys);
        let status = extract_string(&item, &status_keys);
        let updated_at_ms = extract_datetime(&item, &dt_keys);
        proof {
            assert(spec_key_views(id_keys@) =~= spec_id_keys());
            assert(spec_key_views(title_keys@) =~= spec_title_keys());
            assert(spec_key_views(status_keys@) =~= spec_status_keys());
            assert(spec_key_views(dt_keys@) =~= spec_datetime_keys());
        }
        Ok(OsdrItem {
            id: 0,
            dataset_id,
            title,
            status,
            updated_at_ms,
            inserted_at_ms: now_ms,
            raw: item,
        })
    }

    /// Splits a fetched catalogue payload into its elements.
    pub fn sync_items(payload: JsonValue) -> (items: Vec<JsonValue>)
        ensures
            items@ == spec_sync_items(payload),
    {
        match payload {
            JsonValue::Arr(v) => v,
            other => {
                match take_array_field(other, "items") {
                    Ok(v) => v,
                    Err(other2) => {
                        match take_array_field(other2, "results") {
                            Ok(v) => v,
                            Err(other3) => {
                                let mut v: Vec<JsonValue> = Vec::new();
                                v.push(other3);
                                v
                            },
                        }
                    },
                }
            },
        }
    }

    /// Splits a fetched catalogue payload into elements and upserts each,
    /// all or nothing: if any element is not a structured object, a
    /// validation error is returned and the store is left untouched; else
    /// every element is upserted in order and their number returned.
    #[verifier::loop_isolation(false)]
    pub fn sync(&mut self, payload: JsonValue, now_ms: i64) -> (r: Result<usize, ApiError>)
        requires
            old(self).repo.wf(),
            old(self).repo.rows@.len() + spec_sync_items(payload).len() + 1
                < 0x7fff_ffff_ffff_ffff,
        ensures
            final(self).repo.wf(),
            final(self).nasa_url == old(self).nasa_url,
            final(self).nasa_key == old(self).nasa_key,
            spec_all_objects(spec_sync_items(payload)) ==> r == Ok::<usize, ApiError>(
                spec_sync_items(payload).len() as usize,
            ) && final(self).repo.rows_view() == spec_apply_sync(
                old(self).repo.rows_view(),
                spec_sync_items(payload),
                now_ms,
            ),
            !spec_all_objects(spec_sync_items(payload)) ==> (r matches Err(
                ApiError::Validation(_),
            )) && final(self).repo.rows@ == old(self).repo.rows@,
    {
        let mut items: Vec<JsonValue> = Self::sync_items(payload);
        let ghost items0 = items@;
        proof {
            assert(items0 == spec_sync_items(payload));
        }
        let n = items.len();
        for i in 0..n
            invariant
                items@ == items0,
                forall|j: int| 0 <= j < i ==> (#[trigger] items0[j]).spec_is_object(),
        {
            if !items[i].is_object() {
                let mut message: String = "OSDR item validation failed: ".to_owned();
                message.append("invalid_format");
                return Err(ApiError::Validation(message));
            }
        }
        let mut written: usize = 0;
        proof {
            assert(items0.skip(0) =~= items0);
        }
        while items.len() > 0
            invariant
                written + items@.len() == n,
                items@ == items0.skip(written as int),
                self.repo.wf(),
                self.nasa_url == old(self).nasa_url,
                self.nasa_key == old(self).nasa_key,
                self.repo.rows@.len() <= old(self).repo.rows@.len() + written,
                spec_apply_sync(old(self).repo.rows_view(), items0, now_ms) == spec_apply_sync(
                    self.repo.rows_view(),
                    items0.skip(written as int),
                    now_ms,
                ),
            decreases items@.len(),
        {
            let item = items.remove(0);
            proof {
                assert(items0.skip(written as int)[0] == items0[written as int]);
                assert(items0.skip(written as int).skip(1) =~= items0.skip(written as int + 1));
                assert(items@ =~= items0.skip(written as int + 1));
            }
            let normalized = match self.parse_item(item, now_ms) {
                Ok(o) => o,
                Err(_) => unreached(),
            };
            self.repo.upsert(normalized);
            written = written + 1;
        }
        Ok(written)
    }
}

/// Upserting the same keyed item twice is the same as upserting it
/// once: the repeat may carry any insertion time of its own, since an
/// update keeps the stored one.
pub proof fn lemma_upsert_idempotent(rows: Seq<OsdrRowView>, item: OsdrRowView, again: OsdrRowView)
    requires
        item.dataset_id is Some,
        again.dataset_id == item.dataset_id,
        again.title == item.title,
        again.status == item.status,
        again.updated_at_ms == item.updated_at_ms,
        again.raw == item.raw,
    ensures
        spec_upsert(spec_upsert(rows, item), again) == spec_upsert(rows, item),
{
    let k = item.dataset_id->0;
    let rows1 = spec_upsert(rows, item);
    lemma_find_key_props(rows, k);
    match spec_find_key(rows, k) {
        Some(j) => {
            assert forall|m: int| 0 <= m < j implies (#[trigger] rows1[m]).dataset_id != Some(
                k,
            ) by {
                assert(rows1[m] == rows[m]);
            }
            lemma_find_key_at(rows1, k, j);
            assert(spec_upsert(rows1, again) =~= rows1);
        },
        None => {
            let j = rows.len() as int;
            assert forall|m: int| 0 <= m < j implies (#[trigger] rows1[m]).dataset_id != Some(
                k,
            ) by {
                assert(rows1[m] == rows[m]);
            }
            lemma_find_key_at(rows1, k, j);
            assert(spec_upsert(rows1, again) =~= rows1);
        },
    }
}

/// Exactly one row carries key `k`: some row does, and no other one.
pub open spec fn spec_exactly_one_key(rows: Seq<OsdrRowView>, k: Seq<char>) -> bool {
    exists|j: int|
        0 <= j < rows.len() && (#[trigger] rows[j]).dataset_id == Some(k) && forall|m: int|
            0 <= m < rows.len() && m != j ==> (#[trigger] rows[m]).dataset_id != Some(k)
}

/// After upserting a keyed item, exactly one row carries its key.
pub proof fn lemma_upsert_single_key(rows: Seq<OsdrRowView>, item: OsdrRowView, k: Seq<char>)
    requires
        spec_unique_keys(rows),
        item.dataset_id == Some(k),
    ensures
        spec_unique_keys(spec_upsert(rows, item)),
        spec_exactly_one_key(spec_upsert(rows, item), k),
{
    let rows2 = spec_upsert(rows, item);
    lemma_find_key_props(rows, k);
    match spec_find_key(rows, k) {
        Some(j) => {
            assert(rows2[j].dataset_id == Some(k));
            assert forall|m: int| 0 <= m < rows2.len() && m != j implies (
            #[trigger] rows2[m]).dataset_id != Some(k) by {
                assert(rows2[m] == rows[m]);
                if rows[m].dataset_id == Some(k) {
                    assert(rows[j].dataset_id == Some(k));
                }
            }
            assert forall|a: int, b: int| 0 <= a < b < rows2.len() implies !((
            #[trigger] rows2[a]).dataset_id is Some && rows2[a].dataset_id == (
            #[trigger] rows2[b]).dataset_id) by {
                assert(rows2[a].dataset_id == rows[a].dataset_id);
                assert(rows2[b].dataset_id == rows[b].dataset_id);
            }
        },
        None => {
            let j = rows.len() as int;
            assert(rows2[j].dataset_id == Some(k));
            assert forall|m: int| 0 <= m < rows2.len() && m != j implies (
            #[trigger] rows2[m]).dataset_id != Some(k) by {
                assert(rows2[m] == rows[m]);
            }
            assert forall|a: int, b: int| 0 <= a < b < rows2.len() implies !((
            #[trigger] rows2[a]).dataset_id is Some && rows2[a].dataset_id == (
            #[trigger] rows2[b]).dataset_id) by {
                if b < j {
                    assert(rows2[a] == rows[a]);
                    assert(rows2[b] == rows[b]);
                } else {
                    assert(rows2[a] == rows[a]);
                    assert(rows2[b].dataset_id == Some(k));
                }
            }
        },
    }
}

/// Key-less items are never deduplicated: two of them always add two
/// distinct fresh rows.
pub proof fn lemma_keyless_rows_accumulate(
    rows: Seq<OsdrRowView>,
    item1: OsdrRowView,
    item2: OsdrRowView,
)
    requires
        item1.dataset_id is None,
        item2.dataset_id is None,
        rows.len() + 2 < 0x7fff_ffff_ffff_ffff,
    ensures
        ({
            let rows2 = spec_upsert(spec_upsert(rows, item1), item2);
            &&& rows2.len() == rows.len() + 2
            &&& rows2[rows.len() as int].raw == item1.raw
            &&& rows2[rows.len() as int + 1].raw == item2.raw
            &&& rows2[rows.len() as int].id != rows2[rows.len() as int + 1].id
        }),
{
    let a1 = spec_appended(rows, item1);
    let rows1 = spec_upsert(rows, item1);
    assert(rows1 == rows.push(a1));
    let a2 = spec_appended(rows1, item2);
    let rows2 = spec_upsert(rows1, item2);
    assert(rows2 == rows1.push(a2));
    assert(rows2[rows.len() as int] == a1);
    assert(rows2[rows.len() as int + 1] == a2);
}

} // verus!
