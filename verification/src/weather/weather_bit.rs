use vstd::prelude::*;
use crate::errors::RustormyError;
use crate::models::{Units, WeatherConditionIcon};
use crate::weather::open_weather_map::{condition_icon, spec_condition_icon};

verus! {

/// The Weatherbit weather provider; it needs an API key.
#[derive(Debug, Default, Clone, Copy, PartialEq, Eq)]
pub struct WeatherBit {}

/// The condition of a Weatherbit observation. Weatherbit numbers its
/// conditions as OpenWeatherMap does.
pub struct WeatherDescription {
    pub description: String,
    pub code: u32,
}

impl WeatherDescription {
    pub fn icon(&self) -> (r: WeatherConditionIcon)
        ensures
            r == spec_condition_icon(self.code),
    {
        condition_icon(self.code)
    }
}

/// The unit system as Weatherbit names it.
pub open spec fn spec_units_param(units: Units) -> Seq<char> {
    match units {
        Units::Metric => "M"@,
        Units::Imperial => "I"@,
    }
}

pub fn units_param(units: Units) -> (r: &'static str)
    ensures
        r@ == spec_units_param(units),
{
    match units {
        Units::Metric => "M",
        Units::Imperial => "I",
    }
}

/// The observation a current-weather reply holds: its first one, unless
/// the reply counts none or lists none, which means the place is unknown.
pub fn first_observation<T>(count: u8, data: Vec<T>, location_name: String) -> (r: Result<T, RustormyError>)
    ensures
        count == 0 || data@.len() == 0 ==> (r matches Err(RustormyError::CityNotFound(n)) && n@ == location_name@),
        !(count == 0 || data@.len() == 0) ==> r == Ok::<T, RustormyError>(data@[0]),
{
    if count == 0 || data.len() == 0 {
        Err(RustormyError::CityNotFound(location_name))
    } else {
        let mut data = data;
        Ok(data.remove(0))
    }
}

} // verus!
