//! The decisions of one weather request: show the cached observation when it
//! is fresh, else resolve the city, fetch its weather, show it and store it.
//! The caller performs each action and reports its outcome as an event.

use crate::cache::{fresh_spec, is_fresh};
use crate::error::WeatherError;
use crate::weather::ForecastStamp;
use vstd::prelude::*;

verus! {

/// Where a request stands.
#[derive(Debug, Clone, Copy, PartialEq, Eq, Structural)]
pub enum Stage {
    /// Waiting for the cached snapshot, if any.
    LoadingCache,
    /// No usable observation yet: waiting for geocoding.
    Resolving,
    /// No usable observation yet: waiting for the weather of the found place.
    Fetching,
    /// The request has an observation to show, or has failed.
    Finished,
}

/// What the caller learned from the last action.
#[derive(Debug, Clone, PartialEq)]
pub enum Event {
    /// The cache was read (`None`: absent or unreadable) at time `now`.
    CacheLoaded { snapshot: Option<ForecastStamp>, now: i64 },
    /// Geocoding answered with this many places.
    Located { matches: usize },
    /// The weather service answered with an observation.
    Fetched,
    /// The pending upstream call failed.
    Failed { error: WeatherError },
}

/// What the caller is to do next.
#[derive(Debug, Clone, Copy, PartialEq, Eq, Structural)]
pub enum Action {
    /// Ask geocoding for the best match of the city.
    ResolveLocation,
    /// Ask the weather service for the first place found.
    FetchWeather,
    /// Show the cached observation; the cache stays as it is.
    ShowCached,
    /// Show the fetched observation and store it as the new snapshot.
    ShowAndStore,
    /// End the request with this error; nothing is shown or stored.
    Abort { error: WeatherError },
}

/// Whether `event` answers the action that led to `stage`.
pub open spec fn expects_spec(stage: Stage, event: Event) -> bool {
    match (stage, event) {
        (Stage::LoadingCache, Event::CacheLoaded { .. }) => true,
        (Stage::Resolving, Event::Located { .. }) => true,
        (Stage::Fetching, Event::Fetched) => true,
        (Stage::Resolving, Event::Failed { .. }) => true,
        (Stage::Fetching, Event::Failed { .. }) => true,
        _ => false,
    }
}

/// The next stage and action of a request for `city`.
pub open spec fn transition(stage: Stage, city: Seq<char>, event: Event) -> (Stage, Action) {
    match event {
        Event::CacheLoaded { snapshot, now } => {
            if snapshot is Some && fresh_spec(snapshot->0, city, now as int) {
                (Stage::Finished, Action::ShowCached)
            } else {
                (Stage::Resolving, Action::ResolveLocation)
            }
        },
        Event::Located { matches } => {
            if matches == 0 {
                (Stage::Finished, Action::Abort { error: WeatherError::NotFound })
            } else {
                (Stage::Fetching, Action::FetchWeather)
            }
        },
        Event::Fetched => (Stage::Finished, Action::ShowAndStore),
        Event::Failed { error } => (Stage::Finished, Action::Abort { error }),
    }
}

/// A fresh snapshot of the requested city is shown at once and ends the
/// request: no upstream call follows and the cache is not written.
pub proof fn lemma_fresh_cache_ends_request(city: Seq<char>, snapshot: ForecastStamp, now: i64, next: Event)
    requires
        fresh_spec(snapshot, city, now as int),
    ensures
        transition(Stage::LoadingCache, city, Event::CacheLoaded { snapshot: Some(snapshot), now })
            == (Stage::Finished, Action::ShowCached),
        !expects_spec(Stage::Finished, next),
{
}

/// A geocoding answer without a match ends the request with `NotFound`:
/// no weather is fetched and the cache is not written.
pub proof fn lemma_no_match_ends_request(city: Seq<char>, next: Event)
    ensures
        transition(Stage::Resolving, city, Event::Located { matches: 0 })
            == (Stage::Finished, Action::Abort { error: WeatherError::NotFound }),
        !expects_spec(Stage::Finished, next),
{
}

/// The snapshot is written only when an observation was just fetched.
pub proof fn lemma_store_only_after_fetch(stage: Stage, city: Seq<char>, event: Event)
    requires
        expects_spec(stage, event),
        transition(stage, city, event).1 == Action::ShowAndStore,
    ensures
        stage == Stage::Fetching,
        event == Event::Fetched,
{
}

/// The best match of a geocoding answer: its first place, if any.
pub fn first_match<T>(found: Vec<T>) -> (r: Option<T>)
    ensures
        found@.len() == 0 ==> r is None,
        found@.len() > 0 ==> r == Some(found@[0]),
{
    let mut found = found;
    if found.len() == 0 {
        None
    } else {
        Some(found.swap_remove(0))
    }
}

/// One weather request for one city.
pub struct ReportFlow {
    city: String,
    stage: Stage,
}

impl ReportFlow {
    pub closed spec fn city_spec(&self) -> Seq<char> {
        self.city@
    }

    pub closed spec fn stage_spec(&self) -> Stage {
        self.stage
    }

    /// A request for `city` that starts by reading the cache.
    pub fn new(city: &str) -> (r: ReportFlow)
        ensures
            r.city_spec() == city@,
            r.stage_spec() == Stage::LoadingCache,
    {
        ReportFlow { city: String::from_str(city), stage: Stage::LoadingCache }
    }

    /// The requested city.
    pub fn city(&self) -> (r: &str)
        ensures
            r@ == self.city_spec(),
    {
        self.city.as_str()
    }

    /// Where the request stands.
    pub fn stage(&self) -> (r: Stage)
        ensures
            r == self.stage_spec(),
    {
        self.stage
    }

    /// Whether `event` answers the last action.
    pub fn expects(&self, event: &Event) -> (r: bool)
        ensures
            r == expects_spec(self.stage_spec(), *event),
    {
        match (self.stage, event) {
            (Stage::LoadingCache, Event::CacheLoaded { .. }) => true,
            (Stage::Resolving, Event::Located { .. }) => true,
            (Stage::Fetching, Event::Fetched) => true,
            (Stage::Resolving, Event::Failed { .. }) => true,
            (Stage::Fetching, Event::Failed { .. }) => true,
            _ => false,
        }
    }

    /// Takes in the outcome of the last action and decides the next one.
    pub fn step(&mut self, event: Event) -> (r: Action)
        requires
            expects_spec(old(self).stage_spec(), event),
        ensures
            final(self).city_spec() == old(self).city_spec(),
            (final(self).stage_spec(), r) == transition(old(self).stage_spec(), old(self).city_spec(), event),
    {
        let (stage, action) = match event {
            Event::CacheLoaded { snapshot, now } => {
                let fresh = match &snapshot {
                    Some(s) => is_fresh(s, self.city.as_str(), now),
                    None => false,
                };
                if fresh {
                    (Stage::Finished, Action::ShowCached)
                } else {
                    (Stage::Resolving, Action::ResolveLocation)
                }
            },
            Event::Located { matches } => {
                if matches == 0 {
                    (Stage::Finished, Action::Abort { error: WeatherError::NotFound })
                } else {
                    (Stage::Fetching, Action::FetchWeather)
                }
            },
            Event::Fetched => (Stage::Finished, Action::ShowAndStore),
            Event::Failed { error } => (Stage::Finished, Action::Abort { error }),
        };
        self.stage = stage;
        action
    }
}

} // verus!
