use vstd::prelude::*;
use crate::errors::RustormyError;
use crate::models::{Language, Location, Units, WeatherConditionIcon};
use crate::text::owned;
use crate::weather::found_city;
use crate::translations::{ll, lookup, TRANSLATIONS};

verus! {

/// The Open-Meteo weather provider, which needs no API key.
#[derive(Debug, Default, Clone, Copy, PartialEq, Eq)]
pub struct OpenMeteo {}

/// A reply of the Open-Meteo API: the data asked for, or an error with the
/// reason the service gave, if it gave one.
pub enum ApiResponse<T> {
    Data(T),
    Refused { reason: Option<String> },
}

/// The message of a refused request: the reason given, else "Unknown error".
pub open spec fn spec_reason_text(reason: Option<String>) -> Seq<char> {
    match reason {
        Some(r) => r@,
        None => "Unknown error"@,
    }
}

impl<T> ApiResponse<T> {
    /// The data, or the service's refusal as an `ApiReturnedError`.
    pub fn into_result(self) -> (r: Result<T, RustormyError>)
        ensures
            self matches ApiResponse::Data(d) ==> r == Ok::<T, RustormyError>(d),
            self matches ApiResponse::Refused { reason } ==> (r matches Err(RustormyError::ApiReturnedError(m))
                && m@ == spec_reason_text(reason)),
    {
        match self {
            ApiResponse::Data(data) => Ok(data),
            ApiResponse::Refused { reason } => {
                let message = match reason {
                    Some(r) => r,
                    None => owned("Unknown error"),
                };
                Err(RustormyError::ApiReturnedError(message))
            },
        }
    }
}

/// The translation key of a WMO weather code, as Open-Meteo reports it.
pub open spec fn spec_description_key(code: u8) -> Seq<char> {
    match code {
        0 => "Clear"@,
        1 => "Mostly clear"@,
        2 => "Partly cloudy"@,
        3 => "Overcast"@,
        45 => "Fog"@,
        48 => "Depositing rime fog"@,
        51 => "Light drizzle"@,
        53 => "Moderate drizzle"@,
        55 => "Dense drizzle"@,
        56 => "Light freezing drizzle"@,
        57 => "Dense freezing drizzle"@,
        61 => "Light rain"@,
        63 => "Moderate rain"@,
        65 => "Heavy rain"@,
        66 => "Light freezing rain"@,
        67 => "Heavy freezing rain"@,
        71 => "Slight snow fall"@,
        73 => "Moderate snow fall"@,
        75 => "Heavy snow fall"@,
        77 => "Snow grains"@,
        80 => "Slight rain showers"@,
        81 => "Moderate rain showers"@,
        82 => "Violent rain showers"@,
        85 => "Slight snow showers"@,
        86 => "Heavy snow showers"@,
        95 => "Thunderstorm"@,
        96 => "Thunderstorm with slight hail"@,
        99 => "Thunderstorm with heavy hail"@,
        _ => "Unknown"@,
    }
}

pub fn description_key(code: u8) -> (r: &'static str)
    ensures
        r@ == spec_description_key(code),
{
    match code {
        0 => "Clear",
        1 => "Mostly clear",
        2 => "Partly cloudy",
        3 => "Overcast",
        45 => "Fog",
        48 => "Depositing rime fog",
        51 => "Light drizzle",
        53 => "Moderate drizzle",
        55 => "Dense drizzle",
        56 => "Light freezing drizzle",
        57 => "Dense freezing drizzle",
        61 => "Light rain",
        63 => "Moderate rain",
        65 => "Heavy rain",
        66 => "Light freezing rain",
        67 => "Heavy freezing rain",
        71 => "Slight snow fall",
        73 => "Moderate snow fall",
        75 => "Heavy snow fall",
        77 => "Snow grains",
        80 => "Slight rain showers",
        81 => "Moderate rain showers",
        82 => "Violent rain showers",
        85 => "Slight snow showers",
        86 => "Heavy snow showers",
        95 => "Thunderstorm",
        96 => "Thunderstorm with slight hail",
        99 => "Thunderstorm with heavy hail",
        _ => "Unknown",
    }
}

/// The description of a weather code in `lang`.
pub fn description(code: u8, lang: Language) -> (r: &'static str)
    ensures
        r@ == lookup(TRANSLATIONS@, lang.spec_column(), spec_description_key(code)),
{
    ll(lang, description_key(code))
}

/// The icon drawn for a WMO weather code.
pub open spec fn spec_icon(code: u8) -> WeatherConditionIcon {
    if code == 0 {
        WeatherConditionIcon::Clear
    } else if 1 <= code <= 2 {
        WeatherConditionIcon::PartlyCloudy
    } else if code == 3 {
        WeatherConditionIcon::Cloudy
    } else if code == 45 || code == 48 {
        WeatherConditionIcon::Fog
    } else if (51 <= code <= 57) || code == 80 {
        WeatherConditionIcon::LightShowers
    } else if (61 <= code <= 67) || code == 81 || code == 82 {
        WeatherConditionIcon::HeavyShowers
    } else if 71 <= code <= 73 {
        WeatherConditionIcon::LightSnow
    } else if code == 75 || code == 77 || code == 85 || code == 86 {
        WeatherConditionIcon::HeavySnow
    } else if code == 95 || code == 96 || code == 99 {
        WeatherConditionIcon::Thunderstorm
    } else {
        WeatherConditionIcon::Unknown
    }
}

pub fn icon(code: u8) -> (r: WeatherConditionIcon)
    ensures
        r == spec_icon(code),
{
    if code == 0 {
        WeatherConditionIcon::Clear
    } else if 1 <= code && code <= 2 {
        WeatherConditionIcon::PartlyCloudy
    } else if code == 3 {
        WeatherConditionIcon::Cloudy
    } else if code == 45 || code == 48 {
        WeatherConditionIcon::Fog
    } else if (51 <= code && code <= 57) || code == 80 {
        WeatherConditionIcon::LightShowers
    } else if (61 <= code && code <= 67) || code == 81 || code == 82 {
        WeatherConditionIcon::HeavyShowers
    } else if 71 <= code && code <= 73 {
        WeatherConditionIcon::LightSnow
    } else if code == 75 || code == 77 || code == 85 || code == 86 {
        WeatherConditionIcon::HeavySnow
    } else if code == 95 || code == 96 || code == 99 {
        WeatherConditionIcon::Thunderstorm
    } else {
        WeatherConditionIcon::Unknown
    }
}

/// Whether a description speaks of rain or drizzle.
pub open spec fn names_rain(key: Seq<char>) -> bool {
    key == "Heavy rain"@ || key == "Light rain"@ || key == "Dense drizzle"@ || key == "Light drizzle"@ || key == "Moderate rain"@ || key == "Moderate drizzle"@ || key == "Heavy freezing rain"@ || key == "Light freezing rain"@ || key == "Slight rain showers"@ || key == "Violent rain showers"@ || key == "Moderate rain showers"@ || key == "Dense freezing drizzle"@ || key == "Light freezing drizzle"@
}

/// Whether a description speaks of snow.
pub open spec fn names_snow(key: Seq<char>) -> bool {
    key == "Snow grains"@ || key == "Heavy snow fall"@ || key == "Slight snow fall"@ || key == "Heavy snow showers"@ || key == "Moderate snow fall"@ || key == "Slight snow showers"@
}

/// Whether a description speaks of a thunderstorm.
pub open spec fn names_thunderstorm(key: Seq<char>) -> bool {
    key == "Thunderstorm"@ || key == "Thunderstorm with heavy hail"@ || key == "Thunderstorm with slight hail"@
}

/// Whether a description speaks of fog.
pub open spec fn names_fog(key: Seq<char>) -> bool {
    key == "Fog"@ || key == "Depositing rime fog"@
}

/// An Open-Meteo code's icon agrees with its description: rain and drizzle
/// are drawn as showers and never as snow, snow as snow, fog as fog, a
/// thunderstorm as a thunderstorm, overcast as cloudy; only a clear sky is
/// clear, and a code drawn as unknown has no description. (Some codes
/// without a description of their own, such as 52, still get the icon of
/// their range.)
#[verifier::rlimit(100)]
pub proof fn lemma_icon_agrees_with_description(code: u8)
    ensures
        ({
            let key = spec_description_key(code);
            let icon = spec_icon(code);
            &&& names_rain(key) ==> icon == WeatherConditionIcon::LightShowers || icon == WeatherConditionIcon::HeavyShowers
            &&& names_snow(key) ==> icon == WeatherConditionIcon::LightSnow || icon == WeatherConditionIcon::HeavySnow
            &&& names_fog(key) <==> icon == WeatherConditionIcon::Fog
            &&& names_thunderstorm(key) <==> icon == WeatherConditionIcon::Thunderstorm
            &&& key == "Overcast"@ <==> icon == WeatherConditionIcon::Cloudy
            &&& key == "Clear"@ <==> icon == WeatherConditionIcon::Clear
            &&& icon == WeatherConditionIcon::Unknown ==> key == "Unknown"@
        }),
{
    reveal_strlit("Clear");
    reveal_strlit("Dense drizzle");
    reveal_strlit("Dense freezing drizzle");
    reveal_strlit("Depositing rime fog");
    reveal_strlit("Fog");
    reveal_strlit("Heavy freezing rain");
    reveal_strlit("Heavy rain");
    reveal_strlit("Heavy snow fall");
    reveal_strlit("Heavy snow showers");
    reveal_strlit("Light drizzle");
    reveal_strlit("Light freezing drizzle");
    reveal_strlit("Light freezing rain");
    reveal_strlit("Light rain");
    reveal_strlit("Moderate drizzle");
    reveal_strlit("Moderate rain showers");
    reveal_strlit("Moderate rain");
    reveal_strlit("Moderate snow fall");
    reveal_strlit("Mostly clear");
    reveal_strlit("Overcast");
    reveal_strlit("Partly cloudy");
    reveal_strlit("Slight rain showers");
    reveal_strlit("Slight snow fall");
    reveal_strlit("Slight snow showers");
    reveal_strlit("Snow grains");
    reveal_strlit("Thunderstorm with heavy hail");
    reveal_strlit("Thunderstorm with slight hail");
    reveal_strlit("Thunderstorm");
    reveal_strlit("Unknown");
    reveal_strlit("Violent rain showers");
    assert("Clear"@.len() == 5);
    assert("Dense drizzle"@.len() == 13);
    assert("Dense freezing drizzle"@.len() == 22);
    assert("Depositing rime fog"@.len() == 19);
    assert("Fog"@.len() == 3);
    assert("Heavy freezing rain"@.len() == 19);
    assert("Heavy rain"@.len() == 10);
    assert("Heavy snow fall"@.len() == 15);
    assert("Heavy snow showers"@.len() == 18);
    assert("Light drizzle"@.len() == 13);
    assert("Light freezing drizzle"@.len() == 22);
    assert("Light freezing rain"@.len() == 19);
    assert("Light rain"@.len() == 10);
    assert("Moderate drizzle"@.len() == 16);
    assert("Moderate rain showers"@.len() == 21);
    assert("Moderate rain"@.len() == 13);
    assert("Moderate snow fall"@.len() == 18);
    assert("Mostly clear"@.len() == 12);
    assert("Overcast"@.len() == 8);
    assert("Partly cloudy"@.len() == 13);
    assert("Slight rain showers"@.len() == 19);
    assert("Slight snow fall"@.len() == 16);
    assert("Slight snow showers"@.len() == 19);
    assert("Snow grains"@.len() == 11);
    assert("Thunderstorm with heavy hail"@.len() == 28);
    assert("Thunderstorm with slight hail"@.len() == 29);
    assert("Thunderstorm"@.len() == 12);
    assert("Unknown"@.len() == 7);
    assert("Violent rain showers"@.len() == 20);
    assert("Dense drizzle"@[0] != "Light drizzle"@[0]);
    assert("Dense drizzle"@[0] != "Moderate rain"@[0]);
    assert("Dense drizzle"@[0] != "Partly cloudy"@[0]);
    assert("Dense freezing drizzle"@[0] != "Light freezing drizzle"@[0]);
    assert("Depositing rime fog"@[0] != "Heavy freezing rain"@[0]);
    assert("Depositing rime fog"@[0] != "Light freezing rain"@[0]);
    assert("Depositing rime fog"@[0] != "Slight rain showers"@[0]);
    assert("Depositing rime fog"@[0] != "Slight snow showers"@[0]);
    assert("Heavy freezing rain"@[0] != "Light freezing rain"@[0]);
    assert("Heavy freezing rain"@[0] != "Slight rain showers"@[0]);
    assert("Heavy freezing rain"@[0] != "Slight snow showers"@[0]);
    assert("Heavy rain"@[0] != "Light rain"@[0]);
    assert("Heavy snow showers"@[0] != "Moderate snow fall"@[0]);
    assert("Light drizzle"@[0] != "Moderate rain"@[0]);
    assert("Light drizzle"@[0] != "Partly cloudy"@[0]);
    assert("Light freezing rain"@[0] != "Slight rain showers"@[0]);
    assert("Light freezing rain"@[0] != "Slight snow showers"@[0]);
    assert("Moderate drizzle"@[0] != "Slight snow fall"@[0]);
    assert("Moderate rain"@[0] != "Partly cloudy"@[0]);
    assert("Mostly clear"@[0] != "Thunderstorm"@[0]);
    assert("Slight rain showers"@[7] != "Slight snow showers"@[7]);
}

/// The query of a city search: the name, one result, in the report's
/// language.
pub struct GeocodingRequest<'a> {
    pub name: &'a str,
    pub count: u8,
    pub language: &'static str,
}

impl<'a> GeocodingRequest<'a> {
    pub fn new(name: &'a str, language: Language) -> (r: GeocodingRequest<'a>)
        ensures
            r.name@ == name@,
            r.count == 1,
            r.language@ == language.spec_code(),
    {
        GeocodingRequest { name, count: 1, language: language.code() }
    }
}

/// The answer of a city search.
pub struct GeocodingResponse {
    pub results: Option<Vec<Location>>,
}

impl GeocodingResponse {
    /// The last of the places found, if any.
    pub fn into_location(self) -> (r: Option<Location>)
        ensures
            match self.results {
                Some(v) => if v@.len() == 0 { r is None } else { r == Some(v@.last()) },
                None => r is None,
            },
    {
        match self.results {
            Some(mut v) => v.pop(),
            None => None,
        }
    }
}

/// The outcome of a city search: the service's refusal as an
/// `ApiReturnedError`, `CityNotFound` when it found nothing, else the last
/// place found.
pub fn lookup_result(response: ApiResponse<GeocodingResponse>, city: &str) -> (r: Result<Location, RustormyError>)
    ensures
        response matches ApiResponse::Refused { reason } ==> (r matches Err(RustormyError::ApiReturnedError(m))
            && m@ == spec_reason_text(reason)),
        response matches ApiResponse::Data(d) ==> match d.results {
            Some(v) if v@.len() > 0 => r == Ok::<Location, RustormyError>(v@.last()),
            _ => r matches Err(RustormyError::CityNotFound(c)) && c@ == city@,
        },
{
    match response.into_result() {
        Ok(data) => found_city(data.into_location(), city),
        Err(e) => Err(e),
    }
}

/// The units Open-Meteo is asked for: temperature, wind speed and
/// precipitation.
pub open spec fn spec_unit_params(units: Units) -> (Seq<char>, Seq<char>, Seq<char>) {
    match units {
        Units::Metric => ("celsius"@, "ms"@, "mm"@),
        Units::Imperial => ("fahrenheit"@, "mph"@, "inch"@),
    }
}

pub fn unit_params(units: Units) -> (r: (&'static str, &'static str, &'static str))
    ensures
        (r.0@, r.1@, r.2@) == spec_unit_params(units),
{
    match units {
        Units::Metric => ("celsius", "ms", "mm"),
        Units::Imperial => ("fahrenheit", "mph", "inch"),
    }
}

/// The variables asked of the current-weather endpoint.
pub const CURRENT_FIELDS: &'static str = "temperature_2m,apparent_temperature,relative_humidity_2m,precipitation,surface_pressure,wind_speed_10m,wind_direction_10m,weather_code";

} // verus!
