use vstd::prelude::*;
use crate::errors::RustormyError;
use crate::models::WeatherConditionIcon;
use crate::numbers::{signed_decimal, spec_signed_decimal};
use crate::text::concat2;

verus! {

/// The WeatherAPI.com weather provider; it needs an API key.
#[derive(Debug, Default, Clone, Copy, PartialEq, Eq)]
pub struct WeatherApi {}

/// The icon drawn for a WeatherAPI.com condition code.
pub open spec fn spec_icon(code: i32) -> WeatherConditionIcon {
    if code == 1000 {
        WeatherConditionIcon::Clear
    } else if code == 1003 {
        WeatherConditionIcon::PartlyCloudy
    } else if code == 1006 || code == 1009 {
        WeatherConditionIcon::Cloudy
    } else if code == 1030 || code == 1135 || code == 1147 {
        WeatherConditionIcon::Fog
    } else if code == 1063 || code == 1150 || code == 1153 || code == 1180 || code == 1183 || code == 1240
        || code == 1249 || code == 1252 {
        WeatherConditionIcon::LightShowers
    } else if code == 1186 || code == 1189 || code == 1192 || code == 1195 || code == 1243 || code == 1246 {
        WeatherConditionIcon::HeavyShowers
    } else if code == 1066 || code == 1069 || code == 1072 || code == 1210 || code == 1213 || code == 1216
        || code == 1219 || code == 1222 || code == 1225 || code == 1237 || code == 1255 {
        WeatherConditionIcon::LightSnow
    } else if code == 1114 || code == 1117 || code == 1228 || code == 1231 || code == 1258 {
        WeatherConditionIcon::HeavySnow
    } else if code == 1087 || code == 1273 || code == 1276 || code == 1279 || code == 1282 {
        WeatherConditionIcon::Thunderstorm
    } else {
        WeatherConditionIcon::Unknown
    }
}

pub fn icon(code: i32) -> (r: WeatherConditionIcon)
    ensures
        r == spec_icon(code),
{
    if code == 1000 {
        WeatherConditionIcon::Clear
    } else if code == 1003 {
        WeatherConditionIcon::PartlyCloudy
    } else if code == 1006 || code == 1009 {
        WeatherConditionIcon::Cloudy
    } else if code == 1030 || code == 1135 || code == 1147 {
        WeatherConditionIcon::Fog
    } else if code == 1063 || code == 1150 || code == 1153 || code == 1180 || code == 1183 || code == 1240
        || code == 1249 || code == 1252 {
        WeatherConditionIcon::LightShowers
    } else if code == 1186 || code == 1189 || code == 1192 || code == 1195 || code == 1243 || code == 1246 {
        WeatherConditionIcon::HeavyShowers
    } else if code == 1066 || code == 1069 || code == 1072 || code == 1210 || code == 1213 || code == 1216
        || code == 1219 || code == 1222 || code == 1225 || code == 1237 || code == 1255 {
        WeatherConditionIcon::LightSnow
    } else if code == 1114 || code == 1117 || code == 1228 || code == 1231 || code == 1258 {
        WeatherConditionIcon::HeavySnow
    } else if code == 1087 || code == 1273 || code == 1276 || code == 1279 || code == 1282 {
        WeatherConditionIcon::Thunderstorm
    } else {
        WeatherConditionIcon::Unknown
    }
}

/// The name of the place in the report: the name with the region and the
/// country when both are known, with the country alone when only it is
/// known; the coordinates, as given, when the place has no name.
pub open spec fn spec_location_name(
    name: Seq<char>,
    region: Seq<char>,
    country: Seq<char>,
    lat: Seq<char>,
    lon: Seq<char>,
) -> Seq<char> {
    if name.len() == 0 {
        lat + ", "@ + lon
    } else if region.len() > 0 && country.len() > 0 {
        name + ", "@ + region + ", "@ + country
    } else if country.len() > 0 {
        name + ", "@ + country
    } else {
        name
    }
}

/// The place a WeatherAPI.com reply names. The coordinates are held as the
/// numerals the reply gave.
pub struct WeatherApiLocation {
    pub name: String,
    pub region: String,
    pub country: String,
    pub lat: String,
    pub lon: String,
}

impl WeatherApiLocation {
    pub fn location_name(self) -> (r: String)
        ensures
            r@ == spec_location_name(self.name@, self.region@, self.country@, self.lat@, self.lon@),
    {
        if self.name.as_str().is_empty() {
            let mut r = concat2(self.lat.as_str(), ", ");
            r.append(self.lon.as_str());
            r
        } else if !self.region.as_str().is_empty() && !self.country.as_str().is_empty() {
            let mut r = concat2(self.name.as_str(), ", ");
            r.append(self.region.as_str());
            r.append(", ");
            r.append(self.country.as_str());
            r
        } else if !self.country.as_str().is_empty() {
            let mut r = concat2(self.name.as_str(), ", ");
            r.append(self.country.as_str());
            r
        } else {
            self.name
        }
    }
}

/// The message of a refused request: the error code and the service's
/// message.
pub open spec fn spec_error_message(code: i32, message: Seq<char>) -> Seq<char> {
    spec_signed_decimal(code as int) + " "@ + message
}

/// The error for a refused request.
pub fn api_error(code: i32, message: &str) -> (r: RustormyError)
    ensures
        r matches RustormyError::ApiReturnedError(m) && m@ == spec_error_message(code, message@),
{
    let mut m = signed_decimal(code as i64);
    m.append(" ");
    m.append(message);
    RustormyError::ApiReturnedError(m)
}

} // verus!
