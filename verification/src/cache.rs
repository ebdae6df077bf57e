//! The cache of the most recent series.
//!
//! The cache never talks to the monitoring service itself. A lookup either
//! serves the series it holds or hands back the request that the caller has
//! to perform; the caller then reports how the request ended, and only a
//! series that arrived whole replaces what the cache holds.

use vstd::prelude::*;

use crate::config::{Config, ConfigView};
use crate::series::{
    empty_series, is_normalized_series, law_normalization_is_samplewise, normalize_series,
    normalized_series, EnergySeries, SeriesView,
};
use crate::time::Timestamp;
use crate::upstream::{fetch_request, fetch_request_url, FetchRequest, OutboundError};

verus! {

/// Seconds for which a fetched series is served without asking again.
pub const FRESHNESS_WINDOW: i64 = 300;

/// Seconds by which a new cache pretends to be old, so that the first
/// lookup fetches.
pub const INITIAL_AGE: i64 = 86_400;

/// What a cache is, mathematically: the instant of the last refresh that
/// succeeded, and the series that it brought.
pub struct CacheView {
    pub last_refreshed: Timestamp,
    pub series: SeriesView,
}

/// The cached series and the instant at which it was fetched.
#[derive(Debug)]
pub struct TelemetryCache {
    last_refreshed: Timestamp,
    series: EnergySeries,
}

/// What a lookup decides.
#[derive(Debug, PartialEq)]
pub enum Lookup {
    /// The cached series is fresh: this is a copy of it.
    Serve(EnergySeries),
    /// The cached series is stale: perform this request.
    Fetch(FetchRequest),
}

/// What a lookup decides, mathematically.
pub enum LookupView {
    Serve(SeriesView),
    Fetch(Seq<char>),
}

impl View for Lookup {
    type V = LookupView;

    open spec fn view(&self) -> LookupView {
        match self {
            Lookup::Serve(series) => LookupView::Serve(series@),
            Lookup::Fetch(request) => LookupView::Fetch(request.url@),
        }
    }
}

/// A series fetched at `last` is stale at `now` when more than the freshness
/// window lies between them.
pub open spec fn is_stale(last: Timestamp, now: Timestamp) -> bool {
    now.as_nanos() - last.as_nanos() > FRESHNESS_WINDOW * 1_000_000_000
}

/// The decision of a lookup at `now`.
pub open spec fn lookup(cache: CacheView, config: ConfigView, now: Timestamp) -> LookupView {
    if is_stale(cache.last_refreshed, now) {
        LookupView::Fetch(fetch_request_url(config, now))
    } else {
        LookupView::Serve(cache.series)
    }
}

/// How a fetch ended, mathematically.
pub open spec fn outcome_view(outcome: Result<EnergySeries, OutboundError>) -> Result<
    SeriesView,
    OutboundError,
> {
    match outcome {
        Ok(series) => Ok(series@),
        Err(error) => Err(error),
    }
}

/// The cache after a fetch that was started at `now` ended with `outcome`:
/// a series replaces the entry, normalized; a failure changes nothing.
pub open spec fn refreshed(
    cache: CacheView,
    now: Timestamp,
    outcome: Result<SeriesView, OutboundError>,
) -> CacheView {
    match outcome {
        Ok(raw) => CacheView { last_refreshed: now, series: normalized_series(raw) },
        Err(_) => cache,
    }
}

/// What the caller of a fetch gets: the normalized series, or the failure as
/// it came.
pub open spec fn refresh_result(outcome: Result<SeriesView, OutboundError>) -> Result<
    SeriesView,
    OutboundError,
> {
    match outcome {
        Ok(raw) => Ok(normalized_series(raw)),
        Err(error) => Err(error),
    }
}

impl View for TelemetryCache {
    type V = CacheView;

    closed spec fn view(&self) -> CacheView {
        CacheView { last_refreshed: self.last_refreshed, series: self.series@ }
    }
}

impl TelemetryCache {
    /// An empty cache, made at `now`, that counts as refreshed a day before.
    pub fn new(now: &Timestamp) -> (cache: TelemetryCache)
        requires
            now.wf(),
        ensures
            cache@ == (CacheView {
                last_refreshed: Timestamp {
                    secs: (now.secs - INITIAL_AGE) as i64,
                    nanos: now.nanos,
                },
                series: empty_series(),
            }),
    {
        TelemetryCache {
            last_refreshed: Timestamp { secs: now.secs - INITIAL_AGE, nanos: now.nanos },
            series: EnergySeries::empty(),
        }
    }

    /// The instant of the last refresh that succeeded.
    pub fn last_refreshed(&self) -> (t: Timestamp)
        ensures
            t == self@.last_refreshed,
    {
        self.last_refreshed
    }

    /// The series that the cache holds.
    pub fn series(&self) -> (series: &EnergySeries)
        ensures
            series@ == self@.series,
    {
        &self.series
    }

    /// Whether the cached series is too old to be served at `now`.
    pub fn needs_refresh(&self, now: &Timestamp) -> (stale: bool)
        ensures
            stale == is_stale(self@.last_refreshed, *now),
    {
        now.elapsed_since_exceeds(&self.last_refreshed, FRESHNESS_WINDOW)
    }

    /// Decides a lookup at `now`: a copy of the cached series while it is
    /// fresh, and otherwise the one request for the day of `now`. The cache
    /// itself is left as it is.
    pub fn get(&self, config: &Config, now: &Timestamp) -> (decision: Lookup)
        requires
            now.wf(),
        ensures
            decision@ == lookup(self@, config@, *now),
    {
        if self.needs_refresh(now) {
            Lookup::Fetch(fetch_request(config, now))
        } else {
            Lookup::Serve(self.series.clone())
        }
    }

    /// Takes in the end of the fetch that a lookup at `now` asked for. A
    /// series is normalized, stored with `now` as the instant of refresh, and
    /// returned. A failure is returned as it came, and the cache keeps both
    /// its series and its instant.
    pub fn finish_refresh(
        &mut self,
        now: &Timestamp,
        outcome: Result<EnergySeries, OutboundError>,
    ) -> (result: Result<EnergySeries, OutboundError>)
        ensures
            final(self)@ == refreshed(old(self)@, *now, outcome_view(outcome)),
            outcome_view(result) == refresh_result(outcome_view(outcome)),
    {
        match outcome {
            Ok(raw) => {
                let series = normalize_series(&raw);
                let copy = series.clone();
                self.series = series;
                self.last_refreshed = *now;
                Ok(copy)
            },
            Err(error) => Err(error),
        }
    }
}

/// What a cache holds is always a normalized series: the empty series of a
/// new cache is one, and no end of a fetch makes it anything else.
pub proof fn law_cache_holds_normalized_series(
    cache: CacheView,
    now: Timestamp,
    outcome: Result<SeriesView, OutboundError>,
)
    ensures
        is_normalized_series(empty_series()),
        is_normalized_series(cache.series) ==> is_normalized_series(
            refreshed(cache, now, outcome).series,
        ),
{
    if let Ok(raw) = outcome {
        law_normalization_is_samplewise(raw);
    }
}

/// A lookup at or after the making of a cache asks for a fetch: a new cache
/// never serves its empty series.
pub proof fn law_new_cache_fetches_first(
    made: Timestamp,
    cache: CacheView,
    config: ConfigView,
    now: Timestamp,
)
    requires
        made.wf(),
        cache.last_refreshed == (Timestamp {
            secs: (made.secs - INITIAL_AGE) as i64,
            nanos: made.nanos,
        }),
        now.as_nanos() >= made.as_nanos(),
    ensures
        lookup(cache, config, now) == LookupView::Fetch(fetch_request_url(config, now)),
{
}

/// Every lookup within the freshness window of a refresh that succeeded
/// serves the very series that the refresh stored, and asks for no fetch,
/// however many such lookups are made and in whatever order.
pub proof fn law_fresh_lookups_repeat(
    before: CacheView,
    refreshed_at: Timestamp,
    raw: SeriesView,
    config: ConfigView,
    lookups: Seq<Timestamp>,
)
    requires
        forall|i: int|
            0 <= i < lookups.len() ==> (#[trigger] lookups[i]).as_nanos()
                - refreshed_at.as_nanos() <= FRESHNESS_WINDOW * 1_000_000_000,
    ensures
        forall|i: int|
            0 <= i < lookups.len() ==> lookup(
                refreshed(before, refreshed_at, Ok(raw)),
                config,
                #[trigger] lookups[i],
            ) == LookupView::Serve(normalized_series(raw)),
{
}

/// A lookup made more than the freshness window after the last refresh asks
/// for one fetch, for the day of the lookup. If the fetch brings a series,
/// its normalized form becomes the cached series, refreshed at the instant
/// of the lookup, and a lookup at that instant serves it. If the fetch
/// fails, the cache is what it was.
pub proof fn law_stale_lookup_refreshes(
    cache: CacheView,
    config: ConfigView,
    now: Timestamp,
    raw: SeriesView,
    error: OutboundError,
)
    requires
        now.as_nanos() - cache.last_refreshed.as_nanos() > FRESHNESS_WINDOW * 1_000_000_000,
    ensures
        lookup(cache, config, now) == LookupView::Fetch(fetch_request_url(config, now)),
        refreshed(cache, now, Ok(raw)).series == normalized_series(raw),
        refreshed(cache, now, Ok(raw)).last_refreshed == now,
        lookup(refreshed(cache, now, Ok(raw)), config, now) == LookupView::Serve(
            normalized_series(raw),
        ),
        refreshed(cache, now, Err(error)) == cache,
        refresh_result(Err(error)) == Err::<SeriesView, OutboundError>(error),
{
}

} // verus!
