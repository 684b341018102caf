//! The source-keyed latest-value cache and the multi-source refresh flow.
//!
//! Each named external source appends a fresh cache entry on every
//! successful fetch; the current value of a source is its most recently
//! appended entry. A refresh walks the requested source names in order:
//! unknown names are ignored, a failed fetch or an invalid payload is
//! swallowed (the name is simply left off the refreshed list), so one
//! source's outage never blocks the others.

use vstd::prelude::*;
use crate::json::{str_eq, JsonValue};
use crate::osdr::OsdrRepo;
use crate::validation::{spec_space_cache_entry_ok, validate_space_cache_entry};

verus! {

/// One cached fetch for a named source.
#[derive(Debug)]
pub struct CacheEntry {
    /// Store-assigned identity; the `i`-th row carries `i + 1`.
    pub id: i64,
    pub source: String,
    pub fetched_at_ms: i64,
    pub payload: JsonValue,
}

/// The mathematical shape of a cache entry.
pub struct CacheEntryView {
    pub id: i64,
    pub source: Seq<char>,
    pub fetched_at_ms: i64,
    pub payload: JsonValue,
}

impl View for CacheEntry {
    type V = CacheEntryView;

    open spec fn view(&self) -> CacheEntryView {
        CacheEntryView {
            id: self.id,
            source: self.source@,
            fetched_at_ms: self.fetched_at_ms,
            payload: self.payload,
        }
    }
}

/// The append-only cache, in insertion order.
#[derive(Debug)]
pub struct CacheRepo {
    pub rows: Vec<CacheEntry>,
}

/// The most recently appended entry for a source: the last matching row.
pub open spec fn spec_latest(rows: Seq<CacheEntryView>, source: Seq<char>) -> Option<
    CacheEntryView,
>
    decreases rows.len(),
{
    if rows.len() <= 0 {
        None
    } else if rows.last().source == source {
        Some(rows.last())
    } else {
        spec_latest(rows.drop_last(), source)
    }
}

impl CacheRepo {
    /// The rows as their mathematical shapes.
    pub open spec fn rows_view(&self) -> Seq<CacheEntryView> {
        Seq::new(self.rows@.len(), |i: int| self.rows@[i]@)
    }

    /// Rows are dense: the `i`-th row carries identity `i + 1`.
    pub open spec fn wf(&self) -> bool {
        &&& self.rows@.len() < 0x7fff_ffff_ffff_ffff
        &&& forall|i: int|
            0 <= i < self.rows@.len() ==> (#[trigger] self.rows_view()[i]).id == i + 1
    }

    pub fn new() -> (r: CacheRepo)
        ensures
            r.wf(),
            r.rows@.len() == 0,
    {
        CacheRepo { rows: Vec::new() }
    }

    /// Appends one fetched payload for a source.
    pub fn insert(&mut self, source: String, payload: JsonValue, now_ms: i64)
        requires
            old(self).wf(),
            old(self).rows@.len() + 1 < 0x7fff_ffff_ffff_ffff,
        ensures
            final(self).wf(),
            final(self).rows@.len() == old(self).rows@.len() + 1,
            final(self).rows_view() == old(self).rows_view().push(CacheEntryView {
                id: (old(self).rows@.len() + 1) as i64,
                source: source@,
                fetched_at_ms: now_ms,
                payload: payload,
            }),
    {
        let id = self.rows.len() as i64 + 1;
        self.rows.push(CacheEntry { id, source, fetched_at_ms: now_ms, payload });
        proof {
            assert(self.rows_view() =~= old(self).rows_view().push(
                CacheEntryView {
                    id: (old(self).rows@.len() + 1) as i64,
                    source: self.rows@.last().source@,
                    fetched_at_ms: now_ms,
                    payload: self.rows@.last().payload,
                },
            ));
        }
    }

    /// The current value of a source: its most recent entry, if any.
    #[verifier::loop_isolation(false)]
    pub fn get_latest(&self, source: &str) -> (r: Option<&CacheEntry>)
        ensures
            match r {
                Some(e) => spec_latest(self.rows_view(), source@) == Some(e@),
                None => spec_latest(self.rows_view(), source@) is None,
            },
    {
        let n = self.rows.len();
        proof {
            assert(self.rows_view().take(n as int) =~= self.rows_view());
        }
        let mut i = n;
        while i > 0
            invariant
                i <= n,
                spec_latest(self.rows_view().take(i as int), source@) == spec_latest(
                    self.rows_view(),
                    source@,
                ),
            decreases i,
        {
            i = i - 1;
            let entry = &self.rows[i];
            proof {
                assert(self.rows_view().take(i as int + 1).last() == self.rows_view()[i as int]);
                assert(self.rows_view().take(i as int + 1).drop_last() =~= self.rows_view().take(
                    i as int,
                ));
            }
            if str_eq(entry.source.as_str(), source) {
                return Some(entry);
            }
        }
        proof {
            assert(self.rows_view().take(0).len() == 0);
        }
        None
    }

    /// How many cache rows exist in all.
    pub fn count(&self) -> (r: usize)
        ensures
            r == self.rows@.len(),
    {
        self.rows.len()
    }
}

/// The five source names this service refreshes.
pub open spec fn spec_is_known_source(s: Seq<char>) -> bool {
    ||| s == "apod"@
    ||| s == "neo"@
    ||| s == "flr"@
    ||| s == "cme"@
    ||| s == "spacex"@
}

/// Whether a refresh of source `s` with fetch result `fetched` appends a
/// cache entry: the name must be known, the fetch must have produced a
/// payload, and the payload must pass validation.
pub open spec fn spec_refresh_accepts(s: Seq<char>, fetched: Option<JsonValue>) -> bool {
    &&& spec_is_known_source(s)
    &&& match fetched {
        Some(p) => spec_space_cache_entry_ok(s, &p),
        None => false,
    }
}

/// The cache rows and the refreshed-name list that a refresh pass leaves:
/// each accepted source appends one entry and its name; everything else
/// is skipped.
pub open spec fn spec_refresh(
    rows: Seq<CacheEntryView>,
    sources: Seq<Seq<char>>,
    results: Seq<Option<JsonValue>>,
    now_ms: i64,
) -> (Seq<CacheEntryView>, Seq<Seq<char>>)
    decreases sources.len(),
{
    if sources.len() <= 0 {
        (rows, Seq::empty())
    } else {
        let s = sources[0];
        if spec_refresh_accepts(s, results[0]) {
            let rows1 = rows.push(
                CacheEntryView {
                    id: (rows.len() + 1) as i64,
                    source: s,
                    fetched_at_ms: now_ms,
                    payload: results[0]->0,
                },
            );
            let rest = spec_refresh(rows1, sources.skip(1), results.skip(1), now_ms);
            (rest.0, seq![s] + rest.1)
        } else {
            spec_refresh(rows, sources.skip(1), results.skip(1), now_ms)
        }
    }
}

/// A summary over the five required sources, the best-effort satellite
/// slot, and the catalogue row count.
pub struct SpaceSummary<'a> {
    pub apod: Option<&'a CacheEntry>,
    pub neo: Option<&'a CacheEntry>,
    pub flr: Option<&'a CacheEntry>,
    pub cme: Option<&'a CacheEntry>,
    pub spacex: Option<&'a CacheEntry>,
    /// Written by an external collaborator, if at all; read best-effort.
    pub iss: Option<&'a CacheEntry>,
    pub osdr_count: i64,
}

/// Orchestrates the multi-source cache flow.
#[derive(Debug)]
pub struct SpaceService {
    pub cache_repo: CacheRepo,
    /// The API key the caller appends when non-empty.
    pub nasa_key: String,
}

impl SpaceService {
    pub fn new(cache_repo: CacheRepo, nasa_key: String) -> (r: SpaceService)
        ensures
            r.cache_repo == cache_repo,
            r.nasa_key == nasa_key,
    {
        SpaceService { cache_repo, nasa_key }
    }

    /// The current value of a source, if any.
    pub fn get_latest(&self, source: &str) -> (r: Option<&CacheEntry>)
        ensures
            match r {
                Some(e) => spec_latest(self.cache_repo.rows_view(), source@) == Some(e@),
                None => spec_latest(self.cache_repo.rows_view(), source@) is None,
            },
    {
        self.cache_repo.get_latest(source)
    }

    /// Commits one refresh pass. `results[i]` is what fetching
    /// `sources[i]` produced: a payload, or nothing if the fetch failed;
    /// unknown names were never fetched. Exactly the accepted sources
    /// append a cache entry and appear, in request order, in the returned
    /// list; per-source failures are swallowed.
    #[verifier::loop_isolation(false)]
    pub fn refresh(&mut self, sources: &Vec<String>, results: Vec<Option<JsonValue>>, now_ms: i64)
        -> (done: Vec<String>)
        requires
            old(self).cache_repo.wf(),
            results@.len() == sources@.len(),
            old(self).cache_repo.rows@.len() + sources@.len() + 1 < 0x7fff_ffff_ffff_ffff,
        ensures
            final(self).cache_repo.wf(),
            final(self).nasa_key == old(self).nasa_key,
            ({
                let outcome = spec_refresh(
                    old(self).cache_repo.rows_view(),
                    spec_source_views(sources@),
                    results@,
                    now_ms,
                );
                &&& final(self).cache_repo.rows_view() == outcome.0
                &&& spec_source_views(done@) == outcome.1
            }),
    {
        let ghost srcv = spec_source_views(sources@);
        let mut results = results;
        let mut done: Vec<String> = Vec::new();
        let n = sources.len();
        proof {
            assert(srcv.skip(0) =~= srcv);
            assert(results@.skip(0) =~= results@);
        }
        let ghost results0 = results@;
        let mut i: usize = 0;
        while i < n
            invariant
                i <= n,
                n == sources@.len(),
                results@ == results0.skip(i as int),
                results0.len() == n,
                self.cache_repo.wf(),
                self.nasa_key == old(self).nasa_key,
                self.cache_repo.rows@.len() <= old(self).cache_repo.rows@.len() + i,
                ({
                    let outcome = spec_refresh(
                        old(self).cache_repo.rows_view(),
                        srcv,
                        results0,
                        now_ms,
                    );
                    let rest = spec_refresh(
                        self.cache_repo.rows_view(),
                        srcv.skip(i as int),
                        results0.skip(i as int),
                        now_ms,
                    );
                    &&& outcome.0 == rest.0
                    &&& outcome.1 == spec_source_views(done@) + rest.1
                }),
            decreases n - i,
        {
            proof {
                assert(srcv.skip(i as int)[0] == srcv[i as int]);
                assert(results0.skip(i as int)[0] == results0[i as int]);
                assert(srcv.skip(i as int).skip(1) =~= srcv.skip(i as int + 1));
                assert(results0.skip(i as int).skip(1) =~= results0.skip(i as int + 1));
            }
            let source = &sources[i];
            let fetched = results.remove(0);
            proof {
                assert(results@ =~= results0.skip(i as int + 1));
            }
            let known = is_known_source(source.as_str());
            let mut accepted = false;
            match fetched {
                Some(payload) => {
                    if known && validate_space_cache_entry(source.as_str(), &payload).is_ok() {
                        self.cache_repo.insert(source.clone(), payload, now_ms);
                        done.push(source.clone());
                        accepted = true;
                        proof {
                            assert(spec_source_views(done@) =~= spec_source_views(
                                done@.drop_last(),
                            ).push(srcv[i as int]));
                        }
                    }
                },
                None => {},
            }
            proof {
                if !accepted {
                    assert(!spec_refresh_accepts(srcv[i as int], results0[i as int]));
                }
            }
            i = i + 1;
        }
        proof {
            assert(srcv.skip(n as int).len() == 0);
            assert(spec_source_views(done@) + Seq::<Seq<char>>::empty() =~= spec_source_views(
                done@,
            ));
        }
        done
    }

    /// The aggregate of the five required sources, the best-effort
    /// satellite slot, and the catalogue row count. In this store model
    /// reads cannot fail, so the satellite slot's swallowed-error path
    /// and the required sources' propagated-error path coincide.
    pub fn get_summary<'a>(&'a self, osdr: &OsdrRepo) -> (r: SpaceSummary<'a>)
        requires
            osdr.rows@.len() < 0x7fff_ffff_ffff_ffff,
        ensures
            spec_summary_field(self.cache_repo.rows_view(), "apod"@, r.apod),
            spec_summary_field(self.cache_repo.rows_view(), "neo"@, r.neo),
            spec_summary_field(self.cache_repo.rows_view(), "flr"@, r.flr),
            spec_summary_field(self.cache_repo.rows_view(), "cme"@, r.cme),
            spec_summary_field(self.cache_repo.rows_view(), "spacex"@, r.spacex),
            spec_summary_field(self.cache_repo.rows_view(), "iss"@, r.iss),
            r.osdr_count == osdr.rows@.len(),
    {
        SpaceSummary {
            apod: self.cache_repo.get_latest("apod"),
            neo: self.cache_repo.get_latest("neo"),
            flr: self.cache_repo.get_latest("flr"),
            cme: self.cache_repo.get_latest("cme"),
            spacex: self.cache_repo.get_latest("spacex"),
            iss: self.cache_repo.get_latest("iss"),
            osdr_count: osdr.count() as i64,
        }
    }
}

/// A summary slot holds exactly the source's latest entry.
pub open spec fn spec_summary_field(
    rows: Seq<CacheEntryView>,
    source: Seq<char>,
    field: Option<&CacheEntry>,
) -> bool {
    match field {
        Some(e) => spec_latest(rows, source) == Some(e@),
        None => spec_latest(rows, source) is None,
    }
}

/// The views of a list of source names.
pub open spec fn spec_source_views(sources: Seq<String>) -> Seq<Seq<char>> {
    Seq::new(sources.len(), |i: int| sources[i]@)
}

/// Whether this service refreshes a source of that name.
pub fn is_known_source(s: &str) -> (r: bool)
    ensures
        r == spec_is_known_source(s@),
{
    str_eq(s, "apod") || str_eq(s, "neo") || str_eq(s, "flr") || str_eq(s, "cme") || str_eq(
        s,
        "spacex",
    )
}

} // verus!
