use vstd::prelude::*;
use crate::models::{Degrees, Provider};

verus! {

/// Why the configuration or a provider's answer cannot give a report.
#[derive(Debug, Clone, PartialEq, Eq)]
pub enum RustormyError {
    /// Neither a city nor both coordinates were given.
    NoLocationProvided,
    /// The provider needs an API key and none was configured.
    MissingApiKey(Provider),
    /// The options contradict each other.
    InvalidConfiguration(&'static str),
    /// A coordinate lies outside its range.
    InvalidCoordinates { lat: Degrees, lon: Degrees },
    /// The geocoder knows no such city.
    CityNotFound(String),
    /// The provider answered with an error, or with data that cannot be read.
    ApiReturnedError(String),
}

} // verus!
