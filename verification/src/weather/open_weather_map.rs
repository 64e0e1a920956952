use vstd::prelude::*;
use crate::errors::RustormyError;
use crate::models::{Language, Location, WeatherConditionIcon};
use crate::text::owned;
use crate::weather::found_city;
use crate::translations::{ll, lookup, TRANSLATIONS};
use capitalize::Capitalize;

verus! {

/// The OpenWeatherMap weather provider.
#[derive(Debug, Default, Clone, Copy, PartialEq, Eq)]
pub struct OpenWeatherMap {}

/// One weather condition of a reply: its code and its description.
#[derive(Debug, Clone)]
pub struct WeatherInfo {
    pub id: u32,
    pub description: String,
}

/// The parts of a current-weather reply that are not measurements: the
/// conditions, most important first, and the name of the place.
pub struct WeatherResponseData {
    pub weather: Vec<WeatherInfo>,
    pub name: Option<String>,
}

/// What `capitalize` makes of a text: its first character in upper case,
/// the rest in lower case, by the Unicode case mappings.
pub uninterp spec fn capitalized(s: Seq<char>) -> Seq<char>;

/// Capitalizes a text.
///
/// Calls `Capitalize::capitalize` of the `capitalize` crate. The contract
/// names its result `capitalized` and claims that an empty text stays
/// empty; which characters come out is left to the Unicode case mappings
/// that the crate applies.
#[verifier::external_body]
fn capitalize_text(s: &str) -> (r: String)
    ensures
        r@ == capitalized(s@),
        s@.len() == 0 ==> r@.len() == 0,
{
    s.capitalize()
}

/// The icon drawn for an OpenWeatherMap condition code; the first range
/// that holds the code decides.
pub open spec fn spec_condition_icon(id: u32) -> WeatherConditionIcon {
    if 200 <= id <= 232 {
        WeatherConditionIcon::Thunderstorm
    } else if (300 <= id <= 321) || id == 500 || id == 520 {
        WeatherConditionIcon::LightShowers
    } else if 500 <= id <= 531 {
        WeatherConditionIcon::HeavyShowers
    } else if id == 600 || id == 612 || id == 615 || id == 620 {
        WeatherConditionIcon::LightSnow
    } else if 601 <= id <= 622 {
        WeatherConditionIcon::HeavySnow
    } else if 701 <= id <= 781 {
        WeatherConditionIcon::Fog
    } else if id == 800 {
        WeatherConditionIcon::Clear
    } else if id == 801 || id == 802 {
        WeatherConditionIcon::PartlyCloudy
    } else if id == 803 || id == 804 {
        WeatherConditionIcon::Cloudy
    } else {
        WeatherConditionIcon::Unknown
    }
}

pub fn condition_icon(id: u32) -> (r: WeatherConditionIcon)
    ensures
        r == spec_condition_icon(id),
{
    if 200 <= id && id <= 232 {
        WeatherConditionIcon::Thunderstorm
    } else if (300 <= id && id <= 321) || id == 500 || id == 520 {
        WeatherConditionIcon::LightShowers
    } else if 500 <= id && id <= 531 {
        WeatherConditionIcon::HeavyShowers
    } else if id == 600 || id == 612 || id == 615 || id == 620 {
        WeatherConditionIcon::LightSnow
    } else if 601 <= id && id <= 622 {
        WeatherConditionIcon::HeavySnow
    } else if 701 <= id && id <= 781 {
        WeatherConditionIcon::Fog
    } else if id == 800 {
        WeatherConditionIcon::Clear
    } else if id == 801 || id == 802 {
        WeatherConditionIcon::PartlyCloudy
    } else if id == 803 || id == 804 {
        WeatherConditionIcon::Cloudy
    } else {
        WeatherConditionIcon::Unknown
    }
}

impl WeatherResponseData {
    /// The first condition's description, capitalized.
    pub fn description(&self) -> (r: Option<String>)
        ensures
            self.weather@.len() == 0 ==> r is None,
            self.weather@.len() > 0 ==> (r matches Some(d) && d@ == capitalized(self.weather@[0].description@)),
    {
        if self.weather.len() == 0 {
            None
        } else {
            Some(capitalize_text(self.weather[0].description.as_str()))
        }
    }

    /// The icon of the first condition; `Unknown` when there is none.
    pub fn icon(&self) -> (r: WeatherConditionIcon)
        ensures
            self.weather@.len() == 0 ==> r == WeatherConditionIcon::Unknown,
            self.weather@.len() > 0 ==> r == spec_condition_icon(self.weather@[0].id),
    {
        if self.weather.len() == 0 {
            WeatherConditionIcon::Unknown
        } else {
            condition_icon(self.weather[0].id)
        }
    }
}

/// The description shown in the report: the one the reply gave, else
/// "Unknown" in the report's language.
pub fn description_or_unknown(description: Option<String>, lang: Language) -> (r: String)
    ensures
        description matches Some(d) ==> r@ == d@,
        description is None ==> r@ == lookup(TRANSLATIONS@, lang.spec_column(), "Unknown"@),
{
    match description {
        Some(d) => d,
        None => owned(ll(lang, "Unknown")),
    }
}

/// The name of the place in the report: the one the reply gave, else the
/// name of the location that was asked for.
pub fn location_name(name: Option<String>, location: Location) -> (r: String)
    ensures
        name matches Some(n) ==> r@ == n@,
        name is None ==> r@ == location.name@,
{
    match name {
        Some(n) => n,
        None => location.name,
    }
}

/// The answer of a city search: the places found, or the service's error.
pub enum GeocodingApiResponse {
    Found(Vec<Location>),
    Refused { message: String },
}

impl GeocodingApiResponse {
    /// The last place found, if the search went through and found any.
    pub fn into_location(self) -> (r: Option<Location>)
        ensures
            self matches GeocodingApiResponse::Refused { .. } ==> r is None,
            self matches GeocodingApiResponse::Found(v) ==> if v@.len() == 0 { r is None } else { r == Some(v@.last()) },
    {
        match self {
            GeocodingApiResponse::Found(mut v) => v.pop(),
            GeocodingApiResponse::Refused { .. } => None,
        }
    }

    /// The outcome of a city search: the service's refusal as an
    /// `ApiReturnedError`, `CityNotFound` when it found nothing, else the
    /// last place found.
    pub fn into_lookup(self, city: &str) -> (r: Result<Location, RustormyError>)
        ensures
            self matches GeocodingApiResponse::Refused { message } ==> (r matches Err(RustormyError::ApiReturnedError(m))
                && m@ == message@),
            self matches GeocodingApiResponse::Found(v) ==> if v@.len() == 0 {
                r matches Err(RustormyError::CityNotFound(c)) && c@ == city@
            } else {
                r == Ok::<Location, RustormyError>(v@.last())
            },
    {
        match self {
            GeocodingApiResponse::Refused { message } => Err(RustormyError::ApiReturnedError(message)),
            found => found_city(found.into_location(), city),
        }
    }
}

} // verus!
