//! The parts of a weather observation that the library reads.

use crate::synopsis::Synopsis;
use vstd::prelude::*;

verus! {

/// One category of the observed weather, with its description.
#[derive(Debug, Clone, PartialEq)]
pub struct WeatherSynopsis {
    pub synopsis: Synopsis,
    pub description: String,
}

/// Country and sun times of the observed place.
#[derive(Debug, Clone, PartialEq, Default)]
pub struct Sys {
    pub type_field: Option<i64>,
    pub id: Option<i64>,
    pub country: String,
    pub sunrise: i64,
    pub sunset: i64,
}

/// The city and time of an observation: what decides whether a cached
/// observation may be shown again.
#[derive(Debug, Clone, PartialEq)]
pub struct ForecastStamp {
    /// Name of the observed city.
    pub city: String,
    /// Time of the observation, in seconds since the Unix epoch.
    pub forecast_date: i64,
}

} // verus!
