//! Per-location refresh coordination.
//!
//! One `LocationState` exists per monitored name for the process
//! lifetime. A refresh walks it through resolution (once), a freshness
//! check, and a conditional fetch; the network calls themselves happen
//! outside the library, which only decides what to do next. The
//! `in_flight` flag serializes concurrent refresh attempts: while one
//! caller is in its network phase, another asking for a refresh is told
//! to wait and re-read rather than issue a duplicate upstream call.

use vstd::prelude::*;
use crate::coords::round_to_e4;
use crate::fetch::{CycleError, FetchOutcome};
use crate::forecast::WeatherCache;
use crate::gauges::{spec_project, spec_with_hit, spec_with_success, LocationGauges};
use crate::location::Location;

verus! {

/// The mutable state kept for one monitored name: the resolved
/// location once known, the forecast cache, and whether a refresh is in
/// its network phase right now.
#[derive(Clone, Debug, PartialEq, Eq)]
pub struct LocationState {
    pub location: Option<Location>,
    pub cache: WeatherCache,
    pub in_flight: bool,
}

/// What the caller of a transition must do next.
#[derive(Debug, PartialEq, Eq)]
pub enum RefreshAction {
    /// Resolve the name through the location search, then report the
    /// result with `complete_resolve`.
    StartResolve,
    /// Fetch the forecast for these rounded coordinates, presenting the
    /// token if any, then report the outcome with `complete_fetch`.
    StartFetch { lat_e4: i64, lon_e4: i64, revalidation_token: Option<String> },
    /// The cycle is over, successfully or not; no upstream call is owed.
    Completed(Result<(), CycleError>),
    /// Another refresh is in its network phase: wait for it to finish,
    /// then ask again and re-read the (possibly fresh) cache.
    Wait,
}

/// One thing that can happen to a location's refresh, as recorded in a
/// sequential trace.
#[derive(Clone, Debug, PartialEq, Eq)]
pub enum RefreshEvent {
    /// A scrape or the background timer asked for a refresh.
    Requested { now: i64 },
    /// The location search came back.
    Resolved { result: Option<Location>, now: i64 },
    /// The forecast fetch came back.
    Fetched { outcome: FetchOutcome, now: i64 },
}

/// The cache after applying a fetch outcome, with the cycle's result.
/// A fresh payload replaces the cache wholesale; a not-modified answer
/// keeps the samples and refreshes only the bookkeeping the response
/// supplied; every failure leaves the cache untouched.
pub open spec fn spec_apply_outcome(cache: WeatherCache, outcome: FetchOutcome) -> (WeatherCache, Result<(), CycleError>) {
    match outcome {
        FetchOutcome::Fresh { samples, valid_until, revalidation_token } => (
            WeatherCache { samples, valid_until, revalidation_token },
            Ok(()),
        ),
        FetchOutcome::NotModified { valid_until, revalidation_token } => (
            WeatherCache {
                samples: cache.samples,
                valid_until: if valid_until is Some { valid_until } else { cache.valid_until },
                revalidation_token: if revalidation_token is Some { revalidation_token } else { cache.revalidation_token },
            },
            Ok(()),
        ),
        FetchOutcome::RateLimited => (cache, Err(CycleError::RateLimited)),
        FetchOutcome::Forbidden => (cache, Err(CycleError::Forbidden)),
        FetchOutcome::UpstreamError(status) => (cache, Err(CycleError::UpstreamError(status))),
    }
}

/// The fetch action for a state whose location is known.
pub open spec fn spec_fetch_action(s: LocationState) -> RefreshAction
    recommends
        s.location is Some,
{
    RefreshAction::StartFetch {
        lat_e4: round_to_e4(s.location->0.position.lat_e7 as int) as i64,
        lon_e4: round_to_e4(s.location->0.position.lon_e7 as int) as i64,
        revalidation_token: s.cache.revalidation_token,
    }
}

/// The state and action after a refresh request at instant `now`.
pub open spec fn spec_begin_refresh(s: LocationState, now: int) -> (LocationState, RefreshAction) {
    if s.in_flight {
        (s, RefreshAction::Wait)
    } else if s.location is None {
        (LocationState { in_flight: true, ..s }, RefreshAction::StartResolve)
    } else if !s.cache.spec_is_expired(now) {
        (s, RefreshAction::Completed(Ok(())))
    } else {
        (LocationState { in_flight: true, ..s }, spec_fetch_action(s))
    }
}

/// The state and action after the location search came back.
pub open spec fn spec_complete_resolve(s: LocationState, result: Option<Location>, now: int) -> (LocationState, RefreshAction) {
    match result {
        Some(loc) => {
            let resolved = LocationState { location: Some(loc), ..s };
            if !s.cache.spec_is_expired(now) {
                (LocationState { in_flight: false, ..resolved }, RefreshAction::Completed(Ok(())))
            } else {
                (resolved, spec_fetch_action(resolved))
            }
        },
        None => (
            LocationState { in_flight: false, ..s },
            RefreshAction::Completed(Err(CycleError::ResolutionFailure)),
        ),
    }
}

/// The state and result after the forecast fetch came back.
pub open spec fn spec_complete_fetch(s: LocationState, outcome: FetchOutcome) -> (LocationState, Result<(), CycleError>) {
    let (cache, r) = spec_apply_outcome(s.cache, outcome);
    (LocationState { cache, in_flight: false, ..s }, r)
}

/// The whole step relation of one location's refresh machine. An event
/// arriving in a state it does not belong to changes nothing.
pub open spec fn spec_transition(s: LocationState, e: RefreshEvent) -> (LocationState, RefreshAction) {
    match e {
        RefreshEvent::Requested { now } => spec_begin_refresh(s, now as int),
        RefreshEvent::Resolved { result, now } => {
            if s.in_flight && s.location is None {
                spec_complete_resolve(s, result, now as int)
            } else {
                (s, RefreshAction::Wait)
            }
        },
        RefreshEvent::Fetched { outcome, now } => {
            if s.in_flight && s.location is Some {
                let (s2, r) = spec_complete_fetch(s, outcome);
                (s2, RefreshAction::Completed(r))
            } else {
                (s, RefreshAction::Wait)
            }
        },
    }
}

/// The actions a sequential trace of events produces from a state.
pub open spec fn trace_actions(s: LocationState, evs: Seq<RefreshEvent>) -> Seq<RefreshAction>
    decreases evs.len(),
{
    if evs.len() == 0 {
        Seq::empty()
    } else {
        let step = spec_transition(s, evs.first());
        seq![step.1] + trace_actions(step.0, evs.drop_first())
    }
}

/// How many upstream forecast calls a run of actions asks for.
pub open spec fn count_start_fetches(actions: Seq<RefreshAction>) -> int
    decreases actions.len(),
{
    if actions.len() == 0 {
        0
    } else {
        (if actions.first() is StartFetch { 1int } else { 0int }) + count_start_fetches(actions.drop_first())
    }
}

/// Refreshes for one location are serialized: however many refresh
/// requests and resolution results arrive while no fetch completes, at
/// most one upstream forecast call is started — and none at all while a
/// fetch is already in flight.
pub proof fn lemma_refresh_serialized(s: LocationState, evs: Seq<RefreshEvent>)
    requires
        forall|i: int| 0 <= i < evs.len() ==> !(#[trigger] evs[i] is Fetched),
    ensures
        count_start_fetches(trace_actions(s, evs)) <= 1,
        s.in_flight && s.location is Some ==> count_start_fetches(trace_actions(s, evs)) == 0,
    decreases evs.len(),
{
    if evs.len() > 0 {
        let e = evs.first();
        let step = spec_transition(s, e);
        let rest = evs.drop_first();
        assert(forall|i: int| 0 <= i < rest.len() ==> rest[i] == evs[i + 1]);
        lemma_refresh_serialized(step.0, rest);
        let acts = trace_actions(s, evs);
        assert(acts.drop_first() =~= trace_actions(step.0, rest));
        if step.1 is StartFetch {
            assert(step.0.in_flight && step.0.location is Some);
        }
    }
}

/// A refresh request on a ready location with an expired cache starts
/// an upstream call at once — and whatever refresh requests and
/// resolution results pile up while it is in flight, the whole trace
/// shows exactly one.
pub proof fn lemma_exactly_one_upstream_call(s: LocationState, evs: Seq<RefreshEvent>)
    requires
        forall|i: int| 0 <= i < evs.len() ==> !(#[trigger] evs[i] is Fetched),
        evs.len() > 0,
        !s.in_flight,
        s.location is Some,
        evs.first() matches RefreshEvent::Requested { now } && s.cache.spec_is_expired(now as int),
    ensures
        count_start_fetches(trace_actions(s, evs)) == 1,
        trace_actions(s, evs).first() is StartFetch,
{
    let step = spec_transition(s, evs.first());
    let rest = evs.drop_first();
    assert(forall|i: int| 0 <= i < rest.len() ==> rest[i] == evs[i + 1]);
    lemma_refresh_serialized(step.0, rest);
    assert(trace_actions(s, evs).drop_first() =~= trace_actions(step.0, rest));
}

impl LocationState {
    /// Nothing resolved, nothing cached, nothing in flight.
    pub open spec fn is_initial(&self) -> bool {
        &&& self.location is None
        &&& self.cache.samples@ == Seq::<crate::forecast::ForecastSample>::empty()
        &&& self.cache.valid_until is None
        &&& self.cache.revalidation_token is None
        &&& !self.in_flight
    }

    /// A resolved location carries coordinates within range.
    pub open spec fn wf(&self) -> bool {
        match self.location {
            Some(loc) => loc.wf(),
            None => true,
        }
    }

    pub fn new() -> (r: LocationState)
        ensures
            r.is_initial(),
            r.wf(),
    {
        LocationState { location: None, cache: WeatherCache::new(), in_flight: false }
    }

    /// A scrape or the timer asks for this location to be refreshed.
    /// When the cache can simply be served, the gauges take the cache
    /// hit, the success indicator and the projection at once.
    pub fn begin_refresh(&mut self, gauges: &mut LocationGauges, now: i64) -> (a: RefreshAction)
        requires
            old(self).wf(),
        ensures
            *final(self) == spec_begin_refresh(*old(self), now as int).0,
            a == spec_begin_refresh(*old(self), now as int).1,
            final(self).wf(),
            a is Completed ==> *final(gauges) == spec_project(
                spec_with_success(spec_with_hit(*old(gauges)), true),
                old(self).cache.samples@,
                now as int,
            ),
            !(a is Completed) ==> *final(gauges) == *old(gauges),
    {
        if self.in_flight {
            return RefreshAction::Wait;
        }
        let position = match &self.location {
            Some(loc) => Some(loc.position),
            None => None,
        };
        match position {
            None => {
                self.in_flight = true;
                RefreshAction::StartResolve
            },
            Some(pos) => {
                if !self.cache.is_expired(now) {
                    gauges.count_hit();
                    gauges.set_success(true);
                    gauges.project(&self.cache.samples, now);
                    RefreshAction::Completed(Ok(()))
                } else {
                    self.in_flight = true;
                    let (lat_e4, lon_e4) = pos.rounded();
                    let revalidation_token = clone_token(&self.cache.revalidation_token);
                    RefreshAction::StartFetch { lat_e4, lon_e4, revalidation_token }
                }
            },
        }
    }

    /// The location search came back. A missing result records the
    /// failure and leaves the state eligible for retry; the cache is
    /// never touched here.
    pub fn complete_resolve(
        &mut self,
        gauges: &mut LocationGauges,
        result: Option<Location>,
        now: i64,
    ) -> (a: RefreshAction)
        requires
            old(self).in_flight,
            old(self).location is None,
            result matches Some(loc) ==> loc.wf(),
        ensures
            *final(self) == spec_complete_resolve(*old(self), result, now as int).0,
            a == spec_complete_resolve(*old(self), result, now as int).1,
            final(self).wf(),
            final(self).cache == old(self).cache,
            result is None ==> *final(gauges) == spec_with_success(*old(gauges), false),
            result is Some && a is Completed ==> *final(gauges) == spec_project(
                spec_with_success(spec_with_hit(*old(gauges)), true),
                old(self).cache.samples@,
                now as int,
            ),
            a is StartFetch ==> *final(gauges) == *old(gauges),
    {
        match result {
            Some(loc) => {
                let position = loc.position;
                self.location = Some(loc);
                if !self.cache.is_expired(now) {
                    self.in_flight = false;
                    gauges.count_hit();
                    gauges.set_success(true);
                    gauges.project(&self.cache.samples, now);
                    RefreshAction::Completed(Ok(()))
                } else {
                    let (lat_e4, lon_e4) = position.rounded();
                    let revalidation_token = clone_token(&self.cache.revalidation_token);
                    RefreshAction::StartFetch { lat_e4, lon_e4, revalidation_token }
                }
            },
            None => {
                self.in_flight = false;
                gauges.set_success(false);
                RefreshAction::Completed(Err(CycleError::ResolutionFailure))
            },
        }
    }

    /// The forecast fetch came back: apply the outcome to the cache,
    /// record success or failure, and on success project the samples
    /// now in the cache.
    pub fn complete_fetch(
        &mut self,
        gauges: &mut LocationGauges,
        outcome: FetchOutcome,
        now: i64,
    ) -> (r: Result<(), CycleError>)
        requires
            old(self).in_flight,
            old(self).location is Some,
            old(self).wf(),
        ensures
            *final(self) == spec_complete_fetch(*old(self), outcome).0,
            r == spec_complete_fetch(*old(self), outcome).1,
            final(self).wf(),
            !final(self).in_flight,
            final(self).location == old(self).location,
            outcome matches FetchOutcome::Fresh { samples, .. } ==> *final(gauges) == spec_project(
                spec_with_success(*old(gauges), true),
                samples@,
                now as int,
            ),
            outcome is NotModified ==> *final(gauges) == spec_project(
                spec_with_success(spec_with_hit(*old(gauges)), true),
                old(self).cache.samples@,
                now as int,
            ),
            (outcome is RateLimited || outcome is Forbidden || outcome is UpstreamError)
                ==> *final(gauges) == spec_with_success(*old(gauges), false),
    {
        self.in_flight = false;
        match outcome {
            FetchOutcome::Fresh { samples, valid_until, revalidation_token } => {
                self.cache = WeatherCache { samples, valid_until, revalidation_token };
                gauges.set_success(true);
                gauges.project(&self.cache.samples, now);
                Ok(())
            },
            FetchOutcome::NotModified { valid_until, revalidation_token } => {
                if let Some(v) = valid_until {
                    self.cache.valid_until = Some(v);
                }
                if let Some(t) = revalidation_token {
                    self.cache.revalidation_token = Some(t);
                }
                gauges.count_hit();
                gauges.set_success(true);
                gauges.project(&self.cache.samples, now);
                Ok(())
            },
            FetchOutcome::RateLimited => {
                gauges.set_success(false);
                Err(CycleError::RateLimited)
            },
            FetchOutcome::Forbidden => {
                gauges.set_success(false);
                Err(CycleError::Forbidden)
            },
            FetchOutcome::UpstreamError(status) => {
                gauges.set_success(false);
                Err(CycleError::UpstreamError(status))
            },
        }
    }
}

/// Everything the process keeps for one monitored name: the name as
/// configured, the refresh state, and the gauge values. Each entry is
/// guarded by its own exclusive-access scope by the embedding program,
/// never by one lock over the whole set.
pub struct LocationEntry {
    pub name: String,
    pub state: LocationState,
    pub gauges: LocationGauges,
}

/// A name sequence with later repetitions of a name removed.
pub open spec fn dedup_names(names: Seq<Seq<char>>) -> Seq<Seq<char>>
    decreases names.len(),
{
    if names.len() == 0 {
        Seq::empty()
    } else {
        let prefix = dedup_names(names.drop_last());
        if prefix.contains(names.last()) {
            prefix
        } else {
            prefix.push(names.last())
        }
    }
}

/// The names of a run of entries.
pub open spec fn entry_names(entries: Seq<LocationEntry>) -> Seq<Seq<char>> {
    entries.map_values(|e: LocationEntry| e.name@)
}

/// One startup entry per distinct configured name, in first-occurrence
/// order, each with nothing resolved, nothing cached and no gauge
/// written.
pub fn init_location_states(names: &Vec<String>) -> (r: Vec<LocationEntry>)
    ensures
        entry_names(r@) == dedup_names(names@.map_values(|n: String| n@)),
        forall|i: int|
            0 <= i < r@.len() ==> (#[trigger] r@[i]).state.is_initial() && r@[i].gauges
                == LocationGauges::spec_init(),
        forall|i: int, j: int| 0 <= i < j < r@.len() ==> r@[i].name@ != r@[j].name@,
{
    let mut entries: Vec<LocationEntry> = Vec::new();
    let mut k: usize = 0;
    while k < names.len()
        invariant
            k <= names@.len(),
            entry_names(entries@) == dedup_names(names@.subrange(0, k as int).map_values(|n: String| n@)),
            forall|i: int|
                0 <= i < entries@.len() ==> (#[trigger] entries@[i]).state.is_initial()
                    && entries@[i].gauges == LocationGauges::spec_init(),
            forall|i: int, j: int| 0 <= i < j < entries@.len() ==> entries@[i].name@ != entries@[j].name@,
        decreases names@.len() - k,
    {
        let name = &names[k];
        let mut found = false;
        let mut j: usize = 0;
        while j < entries.len()
            invariant
                j <= entries@.len(),
                found <==> exists|t: int| 0 <= t < j && (#[trigger] entries@[t]).name@ == name@,
            decreases entries@.len() - j,
        {
            if entries[j].name == *name {
                found = true;
            }
            j += 1;
        }
        proof {
            let prefix = names@.subrange(0, k as int).map_values(|n: String| n@);
            let next = names@.subrange(0, k as int + 1).map_values(|n: String| n@);
            assert(names@.subrange(0, k as int + 1).drop_last() =~= names@.subrange(0, k as int));
            assert(next.drop_last() =~= prefix);
            assert(next.last() == name@);
            assert(found <==> entry_names(entries@).contains(name@)) by {
                if found {
                    let t = choose|t: int|
                        0 <= t < entries@.len() && (#[trigger] entries@[t]).name@ == name@;
                    assert(entry_names(entries@)[t] == name@);
                }
                if entry_names(entries@).contains(name@) {
                    let t = choose|t: int|
                        0 <= t < entry_names(entries@).len() && entry_names(entries@)[t] == name@;
                    assert(entries@[t].name@ == name@);
                }
            }
        }
        if !found {
            let entry = LocationEntry {
                name: name.clone(),
                state: LocationState::new(),
                gauges: LocationGauges::new(),
            };
            entries.push(entry);
            proof {
                let prefix = names@.subrange(0, k as int).map_values(|n: String| n@);
                assert(entry_names(entries@) =~= entry_names(entries@.drop_last()).push(name@));
            }
        }
        k += 1;
    }
    proof {
        assert(names@.subrange(0, names@.len() as int) =~= names@);
    }
    entries
}

fn clone_token(token: &Option<String>) -> (r: Option<String>)
    ensures
        r == *token,
{
    match token {
        Some(t) => Some(t.clone()),
        None => None,
    }
}

/// A fresh payload replaces the cache wholesale — no field-level merge
/// with what was there before.
pub proof fn lemma_fresh_replaces_wholesale(
    cache: WeatherCache,
    samples: Vec<crate::forecast::ForecastSample>,
    valid_until: Option<i64>,
    revalidation_token: Option<String>,
)
    ensures
        spec_apply_outcome(
            cache,
            FetchOutcome::Fresh { samples, valid_until, revalidation_token },
        ).0 == (WeatherCache { samples, valid_until, revalidation_token }),
        spec_apply_outcome(
            cache,
            FetchOutcome::Fresh { samples, valid_until, revalidation_token },
        ).1 == Ok::<(), CycleError>(()),
{
}

/// A not-modified answer keeps the existing samples unchanged, takes a
/// refreshed expiry or token when the response supplied one, and
/// retains the old bookkeeping otherwise.
pub proof fn lemma_not_modified_retains_samples(
    cache: WeatherCache,
    valid_until: Option<i64>,
    revalidation_token: Option<String>,
)
    ensures
        ({
            let updated = spec_apply_outcome(
                cache,
                FetchOutcome::NotModified { valid_until, revalidation_token },
            ).0;
            &&& updated.samples == cache.samples
            &&& updated.valid_until == (if valid_until is Some { valid_until } else { cache.valid_until })
            &&& updated.revalidation_token == (if revalidation_token is Some {
                revalidation_token
            } else {
                cache.revalidation_token
            })
        }),
{
}

/// A forbidden answer leaves the prior cache untouched, fails the
/// cycle, and drives the success indicator to 0 while touching no other
/// gauge.
pub proof fn lemma_forbidden_leaves_cache_untouched(cache: WeatherCache, g: LocationGauges)
    ensures
        spec_apply_outcome(cache, FetchOutcome::Forbidden).0 == cache,
        spec_apply_outcome(cache, FetchOutcome::Forbidden).1 == Err::<(), CycleError>(CycleError::Forbidden),
        spec_with_success(g, false) == (LocationGauges { fetch_success: 0, ..g }),
{
}

} // verus!
