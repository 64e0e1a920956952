use vstd::prelude::*;
use vstd::utf8::encode_utf8;
use crate::errors::RustormyError;
use crate::models::{Language, WeatherConditionIcon};
use crate::text::{
    chars_of, concat2, decimal, find_char, find_from, lemma_find_bounds, lemma_rfind_bounds, owned,
    rfind_before, rfind_char_end, spec_decimal, spec_trim, trim_range,
};
use crate::translations::{ll, lookup, TRANSLATIONS};

verus! {

/// The Tomorrow.io weather provider.
#[derive(Debug, Default, Clone, Copy, PartialEq, Eq)]
pub struct TomorrowIo {}

/// The icon drawn for a Tomorrow.io weather code.
pub open spec fn spec_icon(code: u16) -> WeatherConditionIcon {
    if code == 1000 {
        WeatherConditionIcon::Clear
    } else if code == 1100 || code == 1101 {
        WeatherConditionIcon::PartlyCloudy
    } else if code == 1102 || code == 1001 {
        WeatherConditionIcon::Cloudy
    } else if code == 2000 || code == 2100 {
        WeatherConditionIcon::Fog
    } else if code == 4000 || code == 4200 || code == 6000 || code == 6200 {
        WeatherConditionIcon::LightShowers
    } else if code == 4001 || code == 4201 || code == 6001 || code == 6201 {
        WeatherConditionIcon::HeavyShowers
    } else if code == 5001 || code == 5100 || code == 7102 {
        WeatherConditionIcon::LightSnow
    } else if code == 5000 || code == 5101 || code == 7000 || code == 7101 {
        WeatherConditionIcon::HeavySnow
    } else if code == 8000 {
        WeatherConditionIcon::Thunderstorm
    } else {
        WeatherConditionIcon::Unknown
    }
}

pub fn icon(code: u16) -> (r: WeatherConditionIcon)
    ensures
        r == spec_icon(code),
{
    if code == 1000 {
        WeatherConditionIcon::Clear
    } else if code == 1100 || code == 1101 {
        WeatherConditionIcon::PartlyCloudy
    } else if code == 1102 || code == 1001 {
        WeatherConditionIcon::Cloudy
    } else if code == 2000 || code == 2100 {
        WeatherConditionIcon::Fog
    } else if code == 4000 || code == 4200 || code == 6000 || code == 6200 {
        WeatherConditionIcon::LightShowers
    } else if code == 4001 || code == 4201 || code == 6001 || code == 6201 {
        WeatherConditionIcon::HeavyShowers
    } else if code == 5001 || code == 5100 || code == 7102 {
        WeatherConditionIcon::LightSnow
    } else if code == 5000 || code == 5101 || code == 7000 || code == 7101 {
        WeatherConditionIcon::HeavySnow
    } else if code == 8000 {
        WeatherConditionIcon::Thunderstorm
    } else {
        WeatherConditionIcon::Unknown
    }
}

/// The translation key of a Tomorrow.io weather code.
pub open spec fn spec_description_key(code: u16) -> Seq<char> {
    match code {
        1000 => "Clear"@,
        1100 => "Mostly clear"@,
        1101 => "Partly cloudy"@,
        1102 => "Mostly cloudy"@,
        1001 => "Cloudy"@,
        2000 => "Fog"@,
        2100 => "Light fog"@,
        4000 => "Drizzle"@,
        4001 => "Rain"@,
        4200 => "Light rain"@,
        4201 => "Heavy rain"@,
        5000 => "Snow"@,
        5001 => "Flurries"@,
        5100 => "Light snow"@,
        5101 => "Heavy snow"@,
        6000 => "Freezing drizzle"@,
        6001 => "Freezing rain"@,
        6200 => "Light freezing rain"@,
        6201 => "Heavy freezing rain"@,
        7000 => "Ice pellets"@,
        7101 => "Heavy ice pellets"@,
        7102 => "Light ice pellets"@,
        8000 => "Thunderstorm"@,
        _ => "Unknown"@,
    }
}

pub fn description_key(code: u16) -> (r: &'static str)
    ensures
        r@ == spec_description_key(code),
{
    match code {
        1000 => "Clear",
        1100 => "Mostly clear",
        1101 => "Partly cloudy",
        1102 => "Mostly cloudy",
        1001 => "Cloudy",
        2000 => "Fog",
        2100 => "Light fog",
        4000 => "Drizzle",
        4001 => "Rain",
        4200 => "Light rain",
        4201 => "Heavy rain",
        5000 => "Snow",
        5001 => "Flurries",
        5100 => "Light snow",
        5101 => "Heavy snow",
        6000 => "Freezing drizzle",
        6001 => "Freezing rain",
        6200 => "Light freezing rain",
        6201 => "Heavy freezing rain",
        7000 => "Ice pellets",
        7101 => "Heavy ice pellets",
        7102 => "Light ice pellets",
        8000 => "Thunderstorm",
        _ => "Unknown",
    }
}

/// The description of a weather code in `lang`.
pub fn description(code: u16, lang: Language) -> (r: &'static str)
    ensures
        r@ == lookup(TRANSLATIONS@, lang.spec_column(), spec_description_key(code)),
{
    ll(lang, description_key(code))
}

/// The number of bytes of the UTF-8 encoding of `s`, as `str::len` reports it.
pub open spec fn byte_len(s: Seq<char>) -> usize {
    encode_utf8(s).len() as usize
}

/// The longest city name, in bytes, that is still followed by the country.
pub const CITY_NAME_LIMIT: usize = 20;

/// The name of the place shown in the report. Tomorrow.io names a place by
/// a comma-separated list from the city to the country, which can be very
/// long; when there is more than one part, only the city and the country
/// are kept (each trimmed), and only the city when its name is longer than
/// `CITY_NAME_LIMIT` bytes.
pub open spec fn spec_short_name(s: Seq<char>) -> Seq<char> {
    let first = find_from(s, ',', 0);
    if first >= s.len() {
        s
    } else {
        let last = rfind_before(s, ',', s.len() as int);
        let city = spec_trim(s.subrange(0, first));
        let country = spec_trim(s.subrange(last + 1, s.len() as int));
        if byte_len(city) <= CITY_NAME_LIMIT {
            city + ", "@ + country
        } else {
            city
        }
    }
}

/// The place a Tomorrow.io reply names.
pub struct LocationData {
    pub name: String,
}

impl LocationData {
    pub fn name(self) -> (r: String)
        ensures
            r@ == spec_short_name(self.name@),
    {
        let v = chars_of(self.name.as_str());
        let first = find_char(&v, ',');
        if first >= v.len() {
            return self.name;
        }
        let end = rfind_char_end(&v, ',');
        proof {
            lemma_find_bounds(v@, ',', 0);
            lemma_rfind_bounds(v@, ',', v@.len() as int);
        }
        let city = trim_range(&v, 0, first);
        let country = trim_range(&v, end, v.len());
        if city.as_str().len() <= CITY_NAME_LIMIT {
            let mut r = concat2(city.as_str(), ", ");
            r.append(country.as_str());
            r
        } else {
            city
        }
    }
}

/// The message of a refused request: `#` and the error code, its type, a
/// colon and the service's message.
pub open spec fn spec_error_message(code: u32, e_type: Seq<char>, message: Seq<char>) -> Seq<char> {
    "#"@ + spec_decimal(code as nat) + " "@ + e_type + ": "@ + message
}

/// The error for a refused request.
pub fn api_error(code: u32, e_type: &str, message: &str) -> (r: RustormyError)
    ensures
        r matches RustormyError::ApiReturnedError(m) && m@ == spec_error_message(code, e_type@, message@),
{
    let mut m = owned("#");
    let digits = decimal(code as u64);
    m.append(digits.as_str());
    m.append(" ");
    m.append(e_type);
    m.append(": ");
    m.append(message);
    RustormyError::ApiReturnedError(m)
}

} // verus!
