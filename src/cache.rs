//! The freshness policy of the single cached observation.

use crate::weather::ForecastStamp;
use vstd::prelude::*;

verus! {

/// How long, in seconds, a cached observation may be shown again.
pub const FRESHNESS_WINDOW_SECS: i64 = 600;

/// A snapshot is fresh for a request when it is of the requested city and
/// was observed less than the freshness window before `now`.
pub open spec fn fresh_spec(snapshot: ForecastStamp, city: Seq<char>, now: int) -> bool {
    &&& snapshot.city@ == city
    &&& now - snapshot.forecast_date < FRESHNESS_WINDOW_SECS
}

/// Whether the cached snapshot may be shown for `city` at time `now`.
pub fn is_fresh(snapshot: &ForecastStamp, city: &str, now: i64) -> (r: bool)
    ensures
        r == fresh_spec(*snapshot, city@, now as int),
{
    let same_city = crate::synopsis::same_text(snapshot.city.as_str(), city);
    let age: i128 = now as i128 - snapshot.forecast_date as i128;
    same_city && age < FRESHNESS_WINDOW_SECS as i128
}

/// A snapshot of another city is never fresh, however recent it is.
pub proof fn lemma_other_city_stale(snapshot: ForecastStamp, city: Seq<char>, now: int)
    requires
        snapshot.city@ != city,
    ensures
        !fresh_spec(snapshot, city, now),
{
}

/// For the requested city, a snapshot is fresh at 599 seconds of age and
/// stale from 600 seconds on.
pub proof fn lemma_freshness_boundary(snapshot: ForecastStamp, now: int)
    ensures
        now - snapshot.forecast_date == 599 ==> fresh_spec(snapshot, snapshot.city@, now),
        now - snapshot.forecast_date >= 600 ==> !fresh_spec(snapshot, snapshot.city@, now),
{
}

} // verus!
