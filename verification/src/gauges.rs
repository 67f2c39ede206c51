//! The per-location gauge model and the metrics projector.
//!
//! The projector picks the sample whose timestamp is nearest to "now"
//! (ties broken by the earliest timestamp) and writes its present
//! fields into the gauges. Absent fields leave the previous gauge value
//! untouched, and an empty sample list writes nothing — stale-value
//! retention is deliberate.

use vstd::prelude::*;
use crate::forecast::{ForecastSample, SampleFields};

verus! {

/// The gauge values kept for one location: the eight forecast readings
/// (fixed-point, thousandths), the success indicator of the last fetch,
/// and the cache-hit and upstream-call counters.
#[derive(Clone, Copy, Debug, PartialEq, Eq)]
pub struct LocationGauges {
    pub temperature: Option<i64>,
    pub humidity: Option<i64>,
    pub wind_speed: Option<i64>,
    pub wind_direction: Option<i64>,
    pub pressure: Option<i64>,
    pub cloud_coverage: Option<i64>,
    pub uv_index: Option<i64>,
    pub precipitation: Option<i64>,
    pub fetch_success: i64,
    pub cache_hits: u64,
    pub api_calls: u64,
}

/// The absolute distance between two instants.
pub open spec fn time_dist(t: int, now: int) -> int {
    if t >= now {
        t - now
    } else {
        now - t
    }
}

/// Whether sample `a` is preferred over sample `b` at instant `now`:
/// strictly nearer to `now`, or equally near with the earlier timestamp.
pub open spec fn better_sample(a: ForecastSample, b: ForecastSample, now: int) -> bool {
    time_dist(a.time as int, now) < time_dist(b.time as int, now)
        || (time_dist(a.time as int, now) == time_dist(b.time as int, now) && a.time < b.time)
}

/// The index of the sample nearest to `now`, ties broken by the
/// earliest timestamp, and among equal samples by the lowest index.
pub open spec fn nearest_idx(s: Seq<ForecastSample>, now: int) -> int
    recommends
        s.len() > 0,
    decreases s.len(),
{
    if s.len() <= 1 {
        0
    } else {
        let r = nearest_idx(s.drop_last(), now);
        if better_sample(s.last(), s[r], now) {
            s.len() - 1
        } else {
            r
        }
    }
}

/// The chosen sample is minimal: no other sample is nearer to `now`,
/// and none equally near has an earlier timestamp.
pub proof fn lemma_nearest_idx_minimal(s: Seq<ForecastSample>, now: int)
    requires
        s.len() > 0,
    ensures
        0 <= nearest_idx(s, now) < s.len(),
        forall|j: int| 0 <= j < s.len() ==> !better_sample(s[j], s[nearest_idx(s, now)], now),
    decreases s.len(),
{
    if s.len() > 1 {
        lemma_nearest_idx_minimal(s.drop_last(), now);
        let r = nearest_idx(s.drop_last(), now);
        let n = nearest_idx(s, now);
        assert forall|j: int| 0 <= j < s.len() implies !better_sample(s[j], s[n], now) by {
            if j < s.len() - 1 {
                assert(s.drop_last()[j] == s[j]);
                assert(!better_sample(s[j], s[r], now));
            }
        }
    }
}

fn dist128(t: i64, now: i64) -> (r: i128)
    ensures
        r == time_dist(t as int, now as int),
{
    let d: i128 = t as i128 - now as i128;
    if d >= 0 {
        d
    } else {
        -d
    }
}

/// The index of the sample nearest to `now` (ties broken by the
/// earliest timestamp), or `None` when there are no samples.
pub fn select_nearest(samples: &Vec<ForecastSample>, now: i64) -> (r: Option<usize>)
    ensures
        r is Some <==> samples@.len() > 0,
        r matches Some(i) ==> {
            &&& i == nearest_idx(samples@, now as int)
            &&& i < samples@.len()
            &&& forall|j: int|
                0 <= j < samples@.len() ==> !better_sample(
                    samples@[j],
                    samples@[i as int],
                    now as int,
                )
        },
{
    if samples.len() == 0 {
        return None;
    }
    let mut best: usize = 0;
    let mut i: usize = 1;
    while i < samples.len()
        invariant
            1 <= i <= samples@.len(),
            0 <= best < i,
            best == nearest_idx(samples@.subrange(0, i as int), now as int),
        decreases samples@.len() - i,
    {
        let cand = samples[i];
        let cur = samples[best];
        let cd = dist128(cand.time, now);
        let bd = dist128(cur.time, now);
        let is_better = cd < bd || (cd == bd && cand.time < cur.time);
        proof {
            let pre = samples@.subrange(0, i as int);
            let post = samples@.subrange(0, i as int + 1);
            assert(post.drop_last() =~= pre);
            assert(post.last() == samples@[i as int]);
            assert(is_better == better_sample(samples@[i as int], pre[best as int], now as int));
        }
        if is_better {
            best = i;
        }
        i += 1;
    }
    proof {
        assert(samples@.subrange(0, samples@.len() as int) =~= samples@);
        lemma_nearest_idx_minimal(samples@, now as int);
    }
    Some(best)
}

/// The gauges after writing one sample's readings: each present field
/// replaces the gauge value, each absent field leaves it untouched.
pub open spec fn spec_apply_fields(g: LocationGauges, f: SampleFields) -> LocationGauges {
    LocationGauges {
        temperature: if f.temperature is Some { f.temperature } else { g.temperature },
        humidity: if f.humidity is Some { f.humidity } else { g.humidity },
        wind_speed: if f.wind_speed is Some { f.wind_speed } else { g.wind_speed },
        wind_direction: if f.wind_direction is Some { f.wind_direction } else { g.wind_direction },
        pressure: if f.pressure is Some { f.pressure } else { g.pressure },
        cloud_coverage: if f.cloud_coverage is Some { f.cloud_coverage } else { g.cloud_coverage },
        uv_index: if f.uv_index is Some { f.uv_index } else { g.uv_index },
        precipitation: if f.precipitation is Some { f.precipitation } else { g.precipitation },
        ..g
    }
}

/// The gauges after a projection pass: the nearest sample's readings
/// written, or nothing at all when there are no samples.
pub open spec fn spec_project(g: LocationGauges, samples: Seq<ForecastSample>, now: int) -> LocationGauges {
    if samples.len() == 0 {
        g
    } else {
        spec_apply_fields(g, samples[nearest_idx(samples, now)].fields)
    }
}

/// A counter value after one more event, stopping at the type's top.
pub open spec fn sat_inc(x: u64) -> u64 {
    if x < u64::MAX {
        (x + 1) as u64
    } else {
        x
    }
}

/// The gauges with the success indicator set.
pub open spec fn spec_with_success(g: LocationGauges, ok: bool) -> LocationGauges {
    LocationGauges { fetch_success: if ok { 1 } else { 0 }, ..g }
}

/// The gauges with one more cache hit counted.
pub open spec fn spec_with_hit(g: LocationGauges) -> LocationGauges {
    LocationGauges { cache_hits: sat_inc(g.cache_hits), ..g }
}

impl LocationGauges {
    /// The startup value: nothing written yet, no calls counted.
    pub open spec fn spec_init() -> LocationGauges {
        LocationGauges {
            temperature: None,
            humidity: None,
            wind_speed: None,
            wind_direction: None,
            pressure: None,
            cloud_coverage: None,
            uv_index: None,
            precipitation: None,
            fetch_success: 0,
            cache_hits: 0,
            api_calls: 0,
        }
    }

    pub fn new() -> (r: LocationGauges)
        ensures
            r == LocationGauges::spec_init(),
    {
        LocationGauges {
            temperature: None,
            humidity: None,
            wind_speed: None,
            wind_direction: None,
            pressure: None,
            cloud_coverage: None,
            uv_index: None,
            precipitation: None,
            fetch_success: 0,
            cache_hits: 0,
            api_calls: 0,
        }
    }

    /// Project the sample nearest to `now` into the gauges. Returns
    /// whether anything was written; with no samples the gauges are
    /// untouched and the caller emits a diagnostic, not an error.
    pub fn project(&mut self, samples: &Vec<ForecastSample>, now: i64) -> (wrote: bool)
        ensures
            *final(self) == spec_project(*old(self), samples@, now as int),
            wrote <==> samples@.len() > 0,
    {
        match select_nearest(samples, now) {
            Some(i) => {
                let f = samples[i].fields;
                if let Some(v) = f.temperature {
                    self.temperature = Some(v);
                }
                if let Some(v) = f.humidity {
                    self.humidity = Some(v);
                }
                if let Some(v) = f.wind_speed {
                    self.wind_speed = Some(v);
                }
                if let Some(v) = f.wind_direction {
                    self.wind_direction = Some(v);
                }
                if let Some(v) = f.pressure {
                    self.pressure = Some(v);
                }
                if let Some(v) = f.cloud_coverage {
                    self.cloud_coverage = Some(v);
                }
                if let Some(v) = f.uv_index {
                    self.uv_index = Some(v);
                }
                if let Some(v) = f.precipitation {
                    self.precipitation = Some(v);
                }
                true
            },
            None => false,
        }
    }

    /// Count one upstream call; the transport reports it when a request
    /// actually went out.
    pub fn record_api_call(&mut self)
        ensures
            *final(self) == (LocationGauges { api_calls: sat_inc(old(self).api_calls), ..*old(self) }),
    {
        if self.api_calls < u64::MAX {
            self.api_calls = self.api_calls + 1;
        }
    }

    pub(crate) fn set_success(&mut self, ok: bool)
        ensures
            *final(self) == spec_with_success(*old(self), ok),
    {
        self.fetch_success = if ok { 1 } else { 0 };
    }

    pub(crate) fn count_hit(&mut self)
        ensures
            *final(self) == spec_with_hit(*old(self)),
    {
        if self.cache_hits < u64::MAX {
            self.cache_hits = self.cache_hits + 1;
        }
    }
}

} // verus!
