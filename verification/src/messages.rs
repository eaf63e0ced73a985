//! The data model of the gateway: the inbound submission, the backend wire
//! shapes, and the error taxonomy of a backend call.

use vstd::prelude::*;
use crate::mapper::{
    map_municipality, map_weather, municipality_code, municipality_of, weather_code, weather_of,
};

verus! {

/// An inbound weather-observation submission, as decoded from the HTTP body.
/// Temperature and humidity are taken as-is; no range validation is done.
pub struct Submission {
    pub municipality: String,
    pub temperature: i32,
    pub humidity: i32,
    pub weather: String,
}

/// The wire shape sent to the backend service: category fields as numeric
/// codes, measurements unchanged.
#[derive(Clone, Copy, PartialEq, Eq, Structural, Debug)]
pub struct BackendRequest {
    pub municipality_code: i32,
    pub temperature: i32,
    pub humidity: i32,
    pub weather_code: i32,
}

/// The wire shape the backend returns when a call succeeds.
pub struct BackendResponse {
    pub status_message: String,
}

/// Why a backend call produced no successful response.
pub enum BackendError {
    /// The connection to the backend is not available; the call was not made.
    Unavailable,
    /// The call was made but came back with an error; the field carries its
    /// description.
    CallFailed(String),
}

/// The backend request a submission translates to: each category string
/// becomes the backend's numeric code for it, and temperature and humidity
/// pass through unmodified.
pub open spec fn backend_request_of(sub: Submission) -> BackendRequest {
    BackendRequest {
        municipality_code: municipality_code(municipality_of(sub.municipality@)),
        temperature: sub.temperature,
        humidity: sub.humidity,
        weather_code: weather_code(weather_of(sub.weather@)),
    }
}

/// Encode a submission for the backend wire.
pub fn to_backend_request(sub: &Submission) -> (req: BackendRequest)
    ensures
        req == backend_request_of(*sub),
{
    BackendRequest {
        municipality_code: map_municipality(sub.municipality.as_str()),
        temperature: sub.temperature,
        humidity: sub.humidity,
        weather_code: map_weather(sub.weather.as_str()),
    }
}

} // verus!
