//! The ways a weather request can fail.

use vstd::prelude::*;

verus! {

/// Why a weather request failed.
#[derive(Debug, Clone, Copy, PartialEq, Eq, Structural)]
pub enum WeatherError {
    /// The API credential is missing.
    Config,
    /// Geocoding found no place of that name.
    NotFound,
    /// An upstream call failed or answered with an error status.
    Upstream,
    /// An upstream answer could not be read.
    Parse,
    /// The snapshot could not be written.
    Persistence,
}

impl WeatherError {
    /// The one-line diagnostic for this error.
    pub open spec fn message_spec(self) -> Seq<char> {
        match self {
            WeatherError::Config => "Weather API key is not configured!"@,
            WeatherError::NotFound => "Location not found by Geolocation API!"@,
            WeatherError::Upstream => "Weather service request failed!"@,
            WeatherError::Parse => "Weather service answer could not be read!"@,
            WeatherError::Persistence => "Failed to store weather forecast!"@,
        }
    }

    /// The one-line diagnostic for this error.
    pub fn message(&self) -> (r: &'static str)
        ensures
            r@ == self.message_spec(),
    {
        match self {
            WeatherError::Config => "Weather API key is not configured!",
            WeatherError::NotFound => "Location not found by Geolocation API!",
            WeatherError::Upstream => "Weather service request failed!",
            WeatherError::Parse => "Weather service answer could not be read!",
            WeatherError::Persistence => "Failed to store weather forecast!",
        }
    }
}

} // verus!
