use vstd::prelude::*;
use crate::errors::RustormyError;
use crate::models::{Language, WeatherConditionIcon};
use crate::text::{concat2, has_suffix, owned, str_eq, strip_suffix};
use crate::translations::{ll, lookup, TRANSLATIONS};

verus! {

/// The MET Norway (Yr) weather provider.
#[derive(Debug, Default, Clone, Copy, PartialEq, Eq)]
pub struct Yr {}

/// The summary of the next hours of a Yr forecast: its weather symbol.
pub struct YrSummary {
    pub symbol_code: String,
}

/// The weather symbols of Yr, without their day/night variant.
#[derive(Debug, Clone, Copy, PartialEq, Eq, Structural)]
pub enum YrWeatherCode {
    ClearSky,
    Fair,
    PartlyCloudy,
    Cloudy,
    LightRainShowers,
    RainShowers,
    HeavyRainShowers,
    LightRainShowersAndThunder,
    RainShowersAndThunder,
    HeavyRainShowersAndThunder,
    LightSleetShowers,
    SleetShowers,
    HeavySleetShowers,
    LightSleetShowersAndThunder,
    SleetShowersAndThunder,
    HeavySleetShowersAndThunder,
    LightSnowShowers,
    SnowShowers,
    HeavySnowShowers,
    LightSnowShowersAndThunder,
    SnowShowersAndThunder,
    HeavySnowShowersAndThunder,
    LightRain,
    Rain,
    HeavyRain,
    LightRainAndThunder,
    RainAndThunder,
    HeavyRainAndThunder,
    LightSleet,
    Sleet,
    HeavySleet,
    LightSleetAndThunder,
    SleetAndThunder,
    HeavySleetAndThunder,
    LightSnow,
    Snow,
    HeavySnow,
    LightSnowAndThunder,
    SnowAndThunder,
    HeavySnowAndThunder,
    Fog,
}

impl YrWeatherCode {
    /// The translation key of the symbol's description.
    pub open spec fn spec_key(self) -> Seq<char> {
        match self {
            YrWeatherCode::ClearSky => "Clear"@,
            YrWeatherCode::Fair => "Mostly clear"@,
            YrWeatherCode::PartlyCloudy => "Partly cloudy"@,
            YrWeatherCode::Cloudy => "Cloudy"@,
            YrWeatherCode::LightRainShowers => "Slight rain showers"@,
            YrWeatherCode::RainShowers => "Moderate rain showers"@,
            YrWeatherCode::HeavyRainShowers => "Violent rain showers"@,
            YrWeatherCode::LightRainShowersAndThunder => "Thunderstorm"@,
            YrWeatherCode::RainShowersAndThunder => "Thunderstorm"@,
            YrWeatherCode::HeavyRainShowersAndThunder => "Thunderstorm"@,
            YrWeatherCode::LightSleetShowers => "Light sleet showers"@,
            YrWeatherCode::SleetShowers => "Sleet showers"@,
            YrWeatherCode::HeavySleetShowers => "Heavy sleet showers"@,
            YrWeatherCode::LightSleetShowersAndThunder => "Thunderstorm"@,
            YrWeatherCode::SleetShowersAndThunder => "Thunderstorm"@,
            YrWeatherCode::HeavySleetShowersAndThunder => "Thunderstorm"@,
            YrWeatherCode::LightSnowShowers => "Slight snow showers"@,
            YrWeatherCode::SnowShowers => "Snow showers"@,
            YrWeatherCode::HeavySnowShowers => "Heavy snow showers"@,
            YrWeatherCode::LightSnowShowersAndThunder => "Thunderstorm"@,
            YrWeatherCode::SnowShowersAndThunder => "Thunderstorm"@,
            YrWeatherCode::HeavySnowShowersAndThunder => "Thunderstorm"@,
            YrWeatherCode::LightRain => "Light rain"@,
            YrWeatherCode::Rain => "Rain"@,
            YrWeatherCode::HeavyRain => "Heavy rain"@,
            YrWeatherCode::LightRainAndThunder => "Thunderstorm"@,
            YrWeatherCode::RainAndThunder => "Thunderstorm"@,
            YrWeatherCode::HeavyRainAndThunder => "Thunderstorm"@,
            YrWeatherCode::LightSleet => "Light sleet"@,
            YrWeatherCode::Sleet => "Sleet"@,
            YrWeatherCode::HeavySleet => "Heavy sleet"@,
            YrWeatherCode::LightSleetAndThunder => "Thunderstorm"@,
            YrWeatherCode::SleetAndThunder => "Thunderstorm"@,
            YrWeatherCode::HeavySleetAndThunder => "Thunderstorm"@,
            YrWeatherCode::LightSnow => "Light snow"@,
            YrWeatherCode::Snow => "Snow"@,
            YrWeatherCode::HeavySnow => "Heavy snow"@,
            YrWeatherCode::LightSnowAndThunder => "Thunderstorm"@,
            YrWeatherCode::SnowAndThunder => "Thunderstorm"@,
            YrWeatherCode::HeavySnowAndThunder => "Thunderstorm"@,
            YrWeatherCode::Fog => "Fog"@,
        }
    }

    pub fn key(self) -> (r: &'static str)
        ensures
            r@ == self.spec_key(),
    {
        match self {
            YrWeatherCode::ClearSky => "Clear",
            YrWeatherCode::Fair => "Mostly clear",
            YrWeatherCode::PartlyCloudy => "Partly cloudy",
            YrWeatherCode::Cloudy => "Cloudy",
            YrWeatherCode::LightRainShowers => "Slight rain showers",
            YrWeatherCode::RainShowers => "Moderate rain showers",
            YrWeatherCode::HeavyRainShowers => "Violent rain showers",
            YrWeatherCode::LightRainShowersAndThunder => "Thunderstorm",
            YrWeatherCode::RainShowersAndThunder => "Thunderstorm",
            YrWeatherCode::HeavyRainShowersAndThunder => "Thunderstorm",
            YrWeatherCode::LightSleetShowers => "Light sleet showers",
            YrWeatherCode::SleetShowers => "Sleet showers",
            YrWeatherCode::HeavySleetShowers => "Heavy sleet showers",
            YrWeatherCode::LightSleetShowersAndThunder => "Thunderstorm",
            YrWeatherCode::SleetShowersAndThunder => "Thunderstorm",
            YrWeatherCode::HeavySleetShowersAndThunder => "Thunderstorm",
            YrWeatherCode::LightSnowShowers => "Slight snow showers",
            YrWeatherCode::SnowShowers => "Snow showers",
            YrWeatherCode::HeavySnowShowers => "Heavy snow showers",
            YrWeatherCode::LightSnowShowersAndThunder => "Thunderstorm",
            YrWeatherCode::SnowShowersAndThunder => "Thunderstorm",
            YrWeatherCode::HeavySnowShowersAndThunder => "Thunderstorm",
            YrWeatherCode::LightRain => "Light rain",
            YrWeatherCode::Rain => "Rain",
            YrWeatherCode::HeavyRain => "Heavy rain",
            YrWeatherCode::LightRainAndThunder => "Thunderstorm",
            YrWeatherCode::RainAndThunder => "Thunderstorm",
            YrWeatherCode::HeavyRainAndThunder => "Thunderstorm",
            YrWeatherCode::LightSleet => "Light sleet",
            YrWeatherCode::Sleet => "Sleet",
            YrWeatherCode::HeavySleet => "Heavy sleet",
            YrWeatherCode::LightSleetAndThunder => "Thunderstorm",
            YrWeatherCode::SleetAndThunder => "Thunderstorm",
            YrWeatherCode::HeavySleetAndThunder => "Thunderstorm",
            YrWeatherCode::LightSnow => "Light snow",
            YrWeatherCode::Snow => "Snow",
            YrWeatherCode::HeavySnow => "Heavy snow",
            YrWeatherCode::LightSnowAndThunder => "Thunderstorm",
            YrWeatherCode::SnowAndThunder => "Thunderstorm",
            YrWeatherCode::HeavySnowAndThunder => "Thunderstorm",
            YrWeatherCode::Fog => "Fog",
        }
    }

    /// The symbol's description in `lang`.
    pub fn description(self, lang: Language) -> (r: String)
        ensures
            r@ == lookup(TRANSLATIONS@, lang.spec_column(), self.spec_key()),
    {
        owned(ll(lang, self.key()))
    }

    pub open spec fn spec_icon(self) -> WeatherConditionIcon {
        match self {
            YrWeatherCode::ClearSky => WeatherConditionIcon::Clear,
            YrWeatherCode::Fair => WeatherConditionIcon::PartlyCloudy,
            YrWeatherCode::PartlyCloudy => WeatherConditionIcon::PartlyCloudy,
            YrWeatherCode::Cloudy => WeatherConditionIcon::Cloudy,
            YrWeatherCode::LightRainShowers => WeatherConditionIcon::LightShowers,
            YrWeatherCode::RainShowers => WeatherConditionIcon::LightShowers,
            YrWeatherCode::HeavyRainShowers => WeatherConditionIcon::HeavyShowers,
            YrWeatherCode::LightRainShowersAndThunder => WeatherConditionIcon::Thunderstorm,
            YrWeatherCode::RainShowersAndThunder => WeatherConditionIcon::Thunderstorm,
            YrWeatherCode::HeavyRainShowersAndThunder => WeatherConditionIcon::Thunderstorm,
            YrWeatherCode::LightSleetShowers => WeatherConditionIcon::LightSnow,
            YrWeatherCode::SleetShowers => WeatherConditionIcon::LightSnow,
            YrWeatherCode::HeavySleetShowers => WeatherConditionIcon::HeavyShowers,
            YrWeatherCode::LightSleetShowersAndThunder => WeatherConditionIcon::Thunderstorm,
            YrWeatherCode::SleetShowersAndThunder => WeatherConditionIcon::Thunderstorm,
            YrWeatherCode::HeavySleetShowersAndThunder => WeatherConditionIcon::Thunderstorm,
            YrWeatherCode::LightSnowShowers => WeatherConditionIcon::LightSnow,
            YrWeatherCode::SnowShowers => WeatherConditionIcon::LightSnow,
            YrWeatherCode::HeavySnowShowers => WeatherConditionIcon::HeavySnow,
            YrWeatherCode::LightSnowShowersAndThunder => WeatherConditionIcon::Thunderstorm,
            YrWeatherCode::SnowShowersAndThunder => WeatherConditionIcon::Thunderstorm,
            YrWeatherCode::HeavySnowShowersAndThunder => WeatherConditionIcon::Thunderstorm,
            YrWeatherCode::LightRain => WeatherConditionIcon::LightShowers,
            YrWeatherCode::Rain => WeatherConditionIcon::LightShowers,
            YrWeatherCode::HeavyRain => WeatherConditionIcon::HeavyShowers,
            YrWeatherCode::LightRainAndThunder => WeatherConditionIcon::Thunderstorm,
            YrWeatherCode::RainAndThunder => WeatherConditionIcon::Thunderstorm,
            YrWeatherCode::HeavyRainAndThunder => WeatherConditionIcon::Thunderstorm,
            YrWeatherCode::LightSleet => WeatherConditionIcon::LightSnow,
            YrWeatherCode::Sleet => WeatherConditionIcon::LightSnow,
            YrWeatherCode::HeavySleet => WeatherConditionIcon::HeavyShowers,
            YrWeatherCode::LightSleetAndThunder => WeatherConditionIcon::Thunderstorm,
            YrWeatherCode::SleetAndThunder => WeatherConditionIcon::Thunderstorm,
            YrWeatherCode::HeavySleetAndThunder => WeatherConditionIcon::Thunderstorm,
            YrWeatherCode::LightSnow => WeatherConditionIcon::LightSnow,
            YrWeatherCode::Snow => WeatherConditionIcon::LightSnow,
            YrWeatherCode::HeavySnow => WeatherConditionIcon::HeavySnow,
            YrWeatherCode::LightSnowAndThunder => WeatherConditionIcon::Thunderstorm,
            YrWeatherCode::SnowAndThunder => WeatherConditionIcon::Thunderstorm,
            YrWeatherCode::HeavySnowAndThunder => WeatherConditionIcon::Thunderstorm,
            YrWeatherCode::Fog => WeatherConditionIcon::Fog,
        }
    }

    /// The icon drawn for the symbol.
    pub fn to_icon(self) -> (r: WeatherConditionIcon)
        ensures
            r == self.spec_icon(),
    {
        match self {
            YrWeatherCode::ClearSky => WeatherConditionIcon::Clear,
            YrWeatherCode::Fair => WeatherConditionIcon::PartlyCloudy,
            YrWeatherCode::PartlyCloudy => WeatherConditionIcon::PartlyCloudy,
            YrWeatherCode::Cloudy => WeatherConditionIcon::Cloudy,
            YrWeatherCode::LightRainShowers => WeatherConditionIcon::LightShowers,
            YrWeatherCode::RainShowers => WeatherConditionIcon::LightShowers,
            YrWeatherCode::HeavyRainShowers => WeatherConditionIcon::HeavyShowers,
            YrWeatherCode::LightRainShowersAndThunder => WeatherConditionIcon::Thunderstorm,
            YrWeatherCode::RainShowersAndThunder => WeatherConditionIcon::Thunderstorm,
            YrWeatherCode::HeavyRainShowersAndThunder => WeatherConditionIcon::Thunderstorm,
            YrWeatherCode::LightSleetShowers => WeatherConditionIcon::LightSnow,
            YrWeatherCode::SleetShowers => WeatherConditionIcon::LightSnow,
            YrWeatherCode::HeavySleetShowers => WeatherConditionIcon::HeavyShowers,
            YrWeatherCode::LightSleetShowersAndThunder => WeatherConditionIcon::Thunderstorm,
            YrWeatherCode::SleetShowersAndThunder => WeatherConditionIcon::Thunderstorm,
            YrWeatherCode::HeavySleetShowersAndThunder => WeatherConditionIcon::Thunderstorm,
            YrWeatherCode::LightSnowShowers => WeatherConditionIcon::LightSnow,
            YrWeatherCode::SnowShowers => WeatherConditionIcon::LightSnow,
            YrWeatherCode::HeavySnowShowers => WeatherConditionIcon::HeavySnow,
            YrWeatherCode::LightSnowShowersAndThunder => WeatherConditionIcon::Thunderstorm,
            YrWeatherCode::SnowShowersAndThunder => WeatherConditionIcon::Thunderstorm,
            YrWeatherCode::HeavySnowShowersAndThunder => WeatherConditionIcon::Thunderstorm,
            YrWeatherCode::LightRain => WeatherConditionIcon::LightShowers,
            YrWeatherCode::Rain => WeatherConditionIcon::LightShowers,
            YrWeatherCode::HeavyRain => WeatherConditionIcon::HeavyShowers,
            YrWeatherCode::LightRainAndThunder => WeatherConditionIcon::Thunderstorm,
            YrWeatherCode::RainAndThunder => WeatherConditionIcon::Thunderstorm,
            YrWeatherCode::HeavyRainAndThunder => WeatherConditionIcon::Thunderstorm,
            YrWeatherCode::LightSleet => WeatherConditionIcon::LightSnow,
            YrWeatherCode::Sleet => WeatherConditionIcon::LightSnow,
            YrWeatherCode::HeavySleet => WeatherConditionIcon::HeavyShowers,
            YrWeatherCode::LightSleetAndThunder => WeatherConditionIcon::Thunderstorm,
            YrWeatherCode::SleetAndThunder => WeatherConditionIcon::Thunderstorm,
            YrWeatherCode::HeavySleetAndThunder => WeatherConditionIcon::Thunderstorm,
            YrWeatherCode::LightSnow => WeatherConditionIcon::LightSnow,
            YrWeatherCode::Snow => WeatherConditionIcon::LightSnow,
            YrWeatherCode::HeavySnow => WeatherConditionIcon::HeavySnow,
            YrWeatherCode::LightSnowAndThunder => WeatherConditionIcon::Thunderstorm,
            YrWeatherCode::SnowAndThunder => WeatherConditionIcon::Thunderstorm,
            YrWeatherCode::HeavySnowAndThunder => WeatherConditionIcon::Thunderstorm,
            YrWeatherCode::Fog => WeatherConditionIcon::Fog,
        }
    }
}

/// The symbol code without its `_day` or `_night` variant suffix.
pub open spec fn yr_base(code: Seq<char>) -> Seq<char> {
    if has_suffix(code, "_day"@) {
        code.subrange(0, code.len() - "_day"@.len())
    } else if has_suffix(code, "_night"@) {
        code.subrange(0, code.len() - "_night"@.len())
    } else {
        code
    }
}

/// The weather symbol that a base code (no variant suffix) names.
pub open spec fn yr_symbol(base: Seq<char>) -> Option<YrWeatherCode> {
    if base == "clearsky"@ {
        Some(YrWeatherCode::ClearSky)
    } else
    if base == "fair"@ {
        Some(YrWeatherCode::Fair)
    } else
    if base == "partlycloudy"@ {
        Some(YrWeatherCode::PartlyCloudy)
    } else
    if base == "cloudy"@ {
        Some(YrWeatherCode::Cloudy)
    } else
    if base == "lightrainshowers"@ {
        Some(YrWeatherCode::LightRainShowers)
    } else
    if base == "rainshowers"@ {
        Some(YrWeatherCode::RainShowers)
    } else
    if base == "heavyrainshowers"@ {
        Some(YrWeatherCode::HeavyRainShowers)
    } else
    if base == "lightrainshowersandthunder"@ {
        Some(YrWeatherCode::LightRainShowersAndThunder)
    } else
    if base == "rainshowersandthunder"@ {
        Some(YrWeatherCode::RainShowersAndThunder)
    } else
    if base == "heavyrainshowersandthunder"@ {
        Some(YrWeatherCode::HeavyRainShowersAndThunder)
    } else
    if base == "lightsleetshowers"@ {
        Some(YrWeatherCode::LightSleetShowers)
    } else
    if base == "sleetshowers"@ {
        Some(YrWeatherCode::SleetShowers)
    } else
    if base == "heavysleetshowers"@ {
        Some(YrWeatherCode::HeavySleetShowers)
    } else
    if base == "lightsleetshowersandthunder"@ || base == "lightssleetshowersandthunder"@ {
        Some(YrWeatherCode::LightSleetShowersAndThunder)
    } else
    if base == "sleetshowersandthunder"@ {
        Some(YrWeatherCode::SleetShowersAndThunder)
    } else
    if base == "heavysleetshowersandthunder"@ {
        Some(YrWeatherCode::HeavySleetShowersAndThunder)
    } else
    if base == "lightsnowshowers"@ {
        Some(YrWeatherCode::LightSnowShowers)
    } else
    if base == "snowshowers"@ {
        Some(YrWeatherCode::SnowShowers)
    } else
    if base == "heavysnowshowers"@ {
        Some(YrWeatherCode::HeavySnowShowers)
    } else
    if base == "lightsnowshowersandthunder"@ || base == "lightssnowshowersandthunder"@ {
        Some(YrWeatherCode::LightSnowShowersAndThunder)
    } else
    if base == "snowshowersandthunder"@ {
        Some(YrWeatherCode::SnowShowersAndThunder)
    } else
    if base == "heavysnowshowersandthunder"@ {
        Some(YrWeatherCode::HeavySnowShowersAndThunder)
    } else
    if base == "lightrain"@ {
        Some(YrWeatherCode::LightRain)
    } else
    if base == "rain"@ {
        Some(YrWeatherCode::Rain)
    } else
    if base == "heavyrain"@ {
        Some(YrWeatherCode::HeavyRain)
    } else
    if base == "lightrainandthunder"@ {
        Some(YrWeatherCode::LightRainAndThunder)
    } else
    if base == "rainandthunder"@ {
        Some(YrWeatherCode::RainAndThunder)
    } else
    if base == "heavyrainandthunder"@ {
        Some(YrWeatherCode::HeavyRainAndThunder)
    } else
    if base == "lightsleet"@ {
        Some(YrWeatherCode::LightSleet)
    } else
    if base == "sleet"@ {
        Some(YrWeatherCode::Sleet)
    } else
    if base == "heavysleet"@ {
        Some(YrWeatherCode::HeavySleet)
    } else
    if base == "lightsleetandthunder"@ {
        Some(YrWeatherCode::LightSleetAndThunder)
    } else
    if base == "sleetandthunder"@ {
        Some(YrWeatherCode::SleetAndThunder)
    } else
    if base == "heavysleetandthunder"@ {
        Some(YrWeatherCode::HeavySleetAndThunder)
    } else
    if base == "lightsnow"@ {
        Some(YrWeatherCode::LightSnow)
    } else
    if base == "snow"@ {
        Some(YrWeatherCode::Snow)
    } else
    if base == "heavysnow"@ {
        Some(YrWeatherCode::HeavySnow)
    } else
    if base == "lightsnowandthunder"@ {
        Some(YrWeatherCode::LightSnowAndThunder)
    } else
    if base == "snowandthunder"@ {
        Some(YrWeatherCode::SnowAndThunder)
    } else
    if base == "heavysnowandthunder"@ {
        Some(YrWeatherCode::HeavySnowAndThunder)
    } else
    if base == "fog"@ {
        Some(YrWeatherCode::Fog)
    } else {
        None
    }
}

pub open spec fn spec_yr_weather_code(code: Seq<char>) -> Option<YrWeatherCode> {
    yr_symbol(yr_base(code))
}

/// The symbol that a Yr symbol code names, `_day` and `_night` variants
/// included, or `None` for an unknown code.
pub fn yr_weather_code(code: &str) -> (r: Option<YrWeatherCode>)
    ensures
        r == spec_yr_weather_code(code@),
{
    let stripped = match strip_suffix(code, "_day") {
        Some(b) => b,
        None => match strip_suffix(code, "_night") {
            Some(b) => b,
            None => owned(code),
        },
    };
    let base = stripped.as_str();
    assert(base@ == yr_base(code@));
    if str_eq(base, "clearsky") {
        Some(YrWeatherCode::ClearSky)
    } else
    if str_eq(base, "fair") {
        Some(YrWeatherCode::Fair)
    } else
    if str_eq(base, "partlycloudy") {
        Some(YrWeatherCode::PartlyCloudy)
    } else
    if str_eq(base, "cloudy") {
        Some(YrWeatherCode::Cloudy)
    } else
    if str_eq(base, "lightrainshowers") {
        Some(YrWeatherCode::LightRainShowers)
    } else
    if str_eq(base, "rainshowers") {
        Some(YrWeatherCode::RainShowers)
    } else
    if str_eq(base, "heavyrainshowers") {
        Some(YrWeatherCode::HeavyRainShowers)
    } else
    if str_eq(base, "lightrainshowersandthunder") {
        Some(YrWeatherCode::LightRainShowersAndThunder)
    } else
    if str_eq(base, "rainshowersandthunder") {
        Some(YrWeatherCode::RainShowersAndThunder)
    } else
    if str_eq(base, "heavyrainshowersandthunder") {
        Some(YrWeatherCode::HeavyRainShowersAndThunder)
    } else
    if str_eq(base, "lightsleetshowers") {
        Some(YrWeatherCode::LightSleetShowers)
    } else
    if str_eq(base, "sleetshowers") {
        Some(YrWeatherCode::SleetShowers)
    } else
    if str_eq(base, "heavysleetshowers") {
        Some(YrWeatherCode::HeavySleetShowers)
    } else
    if str_eq(base, "lightsleetshowersandthunder") || str_eq(base, "lightssleetshowersandthunder") {
        Some(YrWeatherCode::LightSleetShowersAndThunder)
    } else
    if str_eq(base, "sleetshowersandthunder") {
        Some(YrWeatherCode::SleetShowersAndThunder)
    } else
    if str_eq(base, "heavysleetshowersandthunder") {
        Some(YrWeatherCode::HeavySleetShowersAndThunder)
    } else
    if str_eq(base, "lightsnowshowers") {
        Some(YrWeatherCode::LightSnowShowers)
    } else
    if str_eq(base, "snowshowers") {
        Some(YrWeatherCode::SnowShowers)
    } else
    if str_eq(base, "heavysnowshowers") {
        Some(YrWeatherCode::HeavySnowShowers)
    } else
    if str_eq(base, "lightsnowshowersandthunder") || str_eq(base, "lightssnowshowersandthunder") {
        Some(YrWeatherCode::LightSnowShowersAndThunder)
    } else
    if str_eq(base, "snowshowersandthunder") {
        Some(YrWeatherCode::SnowShowersAndThunder)
    } else
    if str_eq(base, "heavysnowshowersandthunder") {
        Some(YrWeatherCode::HeavySnowShowersAndThunder)
    } else
    if str_eq(base, "lightrain") {
        Some(YrWeatherCode::LightRain)
    } else
    if str_eq(base, "rain") {
        Some(YrWeatherCode::Rain)
    } else
    if str_eq(base, "heavyrain") {
        Some(YrWeatherCode::HeavyRain)
    } else
    if str_eq(base, "lightrainandthunder") {
        Some(YrWeatherCode::LightRainAndThunder)
    } else
    if str_eq(base, "rainandthunder") {
        Some(YrWeatherCode::RainAndThunder)
    } else
    if str_eq(base, "heavyrainandthunder") {
        Some(YrWeatherCode::HeavyRainAndThunder)
    } else
    if str_eq(base, "lightsleet") {
        Some(YrWeatherCode::LightSleet)
    } else
    if str_eq(base, "sleet") {
        Some(YrWeatherCode::Sleet)
    } else
    if str_eq(base, "heavysleet") {
        Some(YrWeatherCode::HeavySleet)
    } else
    if str_eq(base, "lightsleetandthunder") {
        Some(YrWeatherCode::LightSleetAndThunder)
    } else
    if str_eq(base, "sleetandthunder") {
        Some(YrWeatherCode::SleetAndThunder)
    } else
    if str_eq(base, "heavysleetandthunder") {
        Some(YrWeatherCode::HeavySleetAndThunder)
    } else
    if str_eq(base, "lightsnow") {
        Some(YrWeatherCode::LightSnow)
    } else
    if str_eq(base, "snow") {
        Some(YrWeatherCode::Snow)
    } else
    if str_eq(base, "heavysnow") {
        Some(YrWeatherCode::HeavySnow)
    } else
    if str_eq(base, "lightsnowandthunder") {
        Some(YrWeatherCode::LightSnowAndThunder)
    } else
    if str_eq(base, "snowandthunder") {
        Some(YrWeatherCode::SnowAndThunder)
    } else
    if str_eq(base, "heavysnowandthunder") {
        Some(YrWeatherCode::HeavySnowAndThunder)
    } else
    if str_eq(base, "fog") {
        Some(YrWeatherCode::Fog)
    } else {
        None
    }
}

pub open spec fn spec_symbol_code_to_description(code: Seq<char>, lang: Language) -> Seq<char> {
    match spec_yr_weather_code(code) {
        Some(c) => lookup(TRANSLATIONS@, lang.spec_column(), c.spec_key()),
        None => lookup(TRANSLATIONS@, lang.spec_column(), "Unknown"@) + " ("@ + code + ")"@,
    }
}

/// The description of a Yr symbol code in `lang`; for an unknown code, the
/// translated word "Unknown" followed by the code in parentheses.
pub fn symbol_code_to_description(code: &str, lang: Language) -> (r: String)
    ensures
        r@ == spec_symbol_code_to_description(code@, lang),
{
    match yr_weather_code(code) {
        Some(c) => c.description(lang),
        None => {
            let mut r = concat2(ll(lang, "Unknown"), " (");
            r.append(code);
            r.append(")");
            r
        },
    }
}

pub open spec fn spec_symbol_code_to_icon(code: Seq<char>) -> WeatherConditionIcon {
    match spec_yr_weather_code(code) {
        Some(c) => c.spec_icon(),
        None => WeatherConditionIcon::Unknown,
    }
}

/// The icon of a Yr symbol code; `Unknown` for an unknown code.
pub fn symbol_code_to_icon(code: &str) -> (r: WeatherConditionIcon)
    ensures
        r == spec_symbol_code_to_icon(code@),
{
    match yr_weather_code(code) {
        Some(c) => c.to_icon(),
        None => WeatherConditionIcon::Unknown,
    }
}

/// The day and night variants of a symbol code name the same weather, and
/// both name what the bare code names when it carries no variant suffix.
pub proof fn lemma_day_night_variants_agree(base: Seq<char>)
    ensures
        spec_yr_weather_code(base + "_day"@) == yr_symbol(base),
        spec_yr_weather_code(base + "_night"@) == yr_symbol(base),
        !has_suffix(base, "_day"@) && !has_suffix(base, "_night"@)
            ==> spec_yr_weather_code(base) == yr_symbol(base),
{
    let d = base + "_day"@;
    assert(d.subrange(d.len() - "_day"@.len(), d.len() as int) =~= "_day"@);
    assert(d.subrange(0, d.len() - "_day"@.len()) =~= base);
    let n = base + "_night"@;
    reveal_strlit("_day");
    reveal_strlit("_night");
    assert(n.subrange(n.len() - 4, n.len() as int)[3] == 't');
    assert(!has_suffix(n, "_day"@));
    assert(n.subrange(n.len() - "_night"@.len(), n.len() as int) =~= "_night"@);
    assert(n.subrange(0, n.len() - "_night"@.len()) =~= base);
}


/// What a Yr reply must hold to give a report, checked in the order the
/// reply is read: a forecast entry, the summary of its next hour, and the
/// wind direction; the first that is missing decides the error.
pub fn yr_reply_check(has_entry: bool, has_next_hours: bool, has_wind_direction: bool) -> (r: Result<(), RustormyError>)
    ensures
        !has_entry ==> (r matches Err(RustormyError::ApiReturnedError(m)) && m@ == "No timeseries returned"@),
        has_entry && !has_next_hours ==> (r matches Err(RustormyError::ApiReturnedError(m))
            && m@ == "No forecast data returned"@),
        has_entry && has_next_hours && !has_wind_direction ==> (r matches Err(RustormyError::ApiReturnedError(m))
            && m@ == "No wind direction returned"@),
        has_entry && has_next_hours && has_wind_direction ==> r is Ok,
{
    if !has_entry {
        Err(RustormyError::ApiReturnedError(owned("No timeseries returned")))
    } else if !has_next_hours {
        Err(RustormyError::ApiReturnedError(owned("No forecast data returned")))
    } else if !has_wind_direction {
        Err(RustormyError::ApiReturnedError(owned("No wind direction returned")))
    } else {
        Ok(())
    }
}

/// A Yr symbol's icon agrees with what its description says: only a clear
/// sky is drawn as clear, and the symbols described as cloudy, as fog or as
/// a thunderstorm, and only those, get the cloudy, fog or thunderstorm icon.
pub proof fn lemma_yr_icon_agrees_with_description(code: YrWeatherCode)
    ensures
        code.spec_icon() == WeatherConditionIcon::Clear <==> code == YrWeatherCode::ClearSky,
        code.spec_icon() == WeatherConditionIcon::Clear <==> code.spec_key() == "Clear"@,
        code.spec_icon() == WeatherConditionIcon::Cloudy <==> code.spec_key() == "Cloudy"@,
        code.spec_icon() == WeatherConditionIcon::Fog <==> code.spec_key() == "Fog"@,
        code.spec_icon() == WeatherConditionIcon::Thunderstorm <==> code.spec_key() == "Thunderstorm"@,
        code.spec_icon() != WeatherConditionIcon::Unknown,
{
    reveal_strlit("Clear");
    reveal_strlit("Cloudy");
    reveal_strlit("Fog");
    reveal_strlit("Heavy rain");
    reveal_strlit("Heavy sleet");
    reveal_strlit("Heavy sleet showers");
    reveal_strlit("Heavy snow");
    reveal_strlit("Heavy snow showers");
    reveal_strlit("Light rain");
    reveal_strlit("Light sleet");
    reveal_strlit("Light sleet showers");
    reveal_strlit("Light snow");
    reveal_strlit("Moderate rain showers");
    reveal_strlit("Mostly clear");
    reveal_strlit("Partly cloudy");
    reveal_strlit("Rain");
    reveal_strlit("Sleet");
    reveal_strlit("Sleet showers");
    reveal_strlit("Slight rain showers");
    reveal_strlit("Slight snow showers");
    reveal_strlit("Snow");
    reveal_strlit("Snow showers");
    reveal_strlit("Thunderstorm");
    reveal_strlit("Violent rain showers");
    assert("Cloudy"@.len() != "Clear"@.len());
    assert("Fog"@.len() != "Clear"@.len());
    assert("Heavy rain"@.len() != "Clear"@.len());
    assert("Heavy sleet"@.len() != "Clear"@.len());
    assert("Heavy sleet showers"@.len() != "Clear"@.len());
    assert("Heavy snow"@.len() != "Clear"@.len());
    assert("Heavy snow showers"@.len() != "Clear"@.len());
    assert("Light rain"@.len() != "Clear"@.len());
    assert("Light sleet"@.len() != "Clear"@.len());
    assert("Light sleet showers"@.len() != "Clear"@.len());
    assert("Light snow"@.len() != "Clear"@.len());
    assert("Moderate rain showers"@.len() != "Clear"@.len());
    assert("Mostly clear"@.len() != "Clear"@.len());
    assert("Partly cloudy"@.len() != "Clear"@.len());
    assert("Rain"@.len() != "Clear"@.len());
    assert("Sleet"@[0] != "Clear"@[0]);
    assert("Sleet showers"@.len() != "Clear"@.len());
    assert("Slight rain showers"@.len() != "Clear"@.len());
    assert("Slight snow showers"@.len() != "Clear"@.len());
    assert("Snow"@.len() != "Clear"@.len());
    assert("Snow showers"@.len() != "Clear"@.len());
    assert("Thunderstorm"@.len() != "Clear"@.len());
    assert("Violent rain showers"@.len() != "Clear"@.len());
    assert("Clear"@.len() != "Cloudy"@.len());
    assert("Fog"@.len() != "Cloudy"@.len());
    assert("Heavy rain"@.len() != "Cloudy"@.len());
    assert("Heavy sleet"@.len() != "Cloudy"@.len());
    assert("Heavy sleet showers"@.len() != "Cloudy"@.len());
    assert("Heavy snow"@.len() != "Cloudy"@.len());
    assert("Heavy snow showers"@.len() != "Cloudy"@.len());
    assert("Light rain"@.len() != "Cloudy"@.len());
    assert("Light sleet"@.len() != "Cloudy"@.len());
    assert("Light sleet showers"@.len() != "Cloudy"@.len());
    assert("Light snow"@.len() != "Cloudy"@.len());
    assert("Moderate rain showers"@.len() != "Cloudy"@.len());
    assert("Mostly clear"@.len() != "Cloudy"@.len());
    assert("Partly cloudy"@.len() != "Cloudy"@.len());
    assert("Rain"@.len() != "Cloudy"@.len());
    assert("Sleet"@.len() != "Cloudy"@.len());
    assert("Sleet showers"@.len() != "Cloudy"@.len());
    assert("Slight rain showers"@.len() != "Cloudy"@.len());
    assert("Slight snow showers"@.len() != "Cloudy"@.len());
    assert("Snow"@.len() != "Cloudy"@.len());
    assert("Snow showers"@.len() != "Cloudy"@.len());
    assert("Thunderstorm"@.len() != "Cloudy"@.len());
    assert("Violent rain showers"@.len() != "Cloudy"@.len());
    assert("Clear"@.len() != "Fog"@.len());
    assert("Cloudy"@.len() != "Fog"@.len());
    assert("Heavy rain"@.len() != "Fog"@.len());
    assert("Heavy sleet"@.len() != "Fog"@.len());
    assert("Heavy sleet showers"@.len() != "Fog"@.len());
    assert("Heavy snow"@.len() != "Fog"@.len());
    assert("Heavy snow showers"@.len() != "Fog"@.len());
    assert("Light rain"@.len() != "Fog"@.len());
    assert("Light sleet"@.len() != "Fog"@.len());
    assert("Light sleet showers"@.len() != "Fog"@.len());
    assert("Light snow"@.len() != "Fog"@.len());
    assert("Moderate rain showers"@.len() != "Fog"@.len());
    assert("Mostly clear"@.len() != "Fog"@.len());
    assert("Partly cloudy"@.len() != "Fog"@.len());
    assert("Rain"@.len() != "Fog"@.len());
    assert("Sleet"@.len() != "Fog"@.len());
    assert("Sleet showers"@.len() != "Fog"@.len());
    assert("Slight rain showers"@.len() != "Fog"@.len());
    assert("Slight snow showers"@.len() != "Fog"@.len());
    assert("Snow"@.len() != "Fog"@.len());
    assert("Snow showers"@.len() != "Fog"@.len());
    assert("Thunderstorm"@.len() != "Fog"@.len());
    assert("Violent rain showers"@.len() != "Fog"@.len());
    assert("Clear"@.len() != "Thunderstorm"@.len());
    assert("Cloudy"@.len() != "Thunderstorm"@.len());
    assert("Fog"@.len() != "Thunderstorm"@.len());
    assert("Heavy rain"@.len() != "Thunderstorm"@.len());
    assert("Heavy sleet"@.len() != "Thunderstorm"@.len());
    assert("Heavy sleet showers"@.len() != "Thunderstorm"@.len());
    assert("Heavy snow"@.len() != "Thunderstorm"@.len());
    assert("Heavy snow showers"@.len() != "Thunderstorm"@.len());
    assert("Light rain"@.len() != "Thunderstorm"@.len());
    assert("Light sleet"@.len() != "Thunderstorm"@.len());
    assert("Light sleet showers"@.len() != "Thunderstorm"@.len());
    assert("Light snow"@.len() != "Thunderstorm"@.len());
    assert("Moderate rain showers"@.len() != "Thunderstorm"@.len());
    assert("Mostly clear"@[0] != "Thunderstorm"@[0]);
    assert("Partly cloudy"@.len() != "Thunderstorm"@.len());
    assert("Rain"@.len() != "Thunderstorm"@.len());
    assert("Sleet"@.len() != "Thunderstorm"@.len());
    assert("Sleet showers"@.len() != "Thunderstorm"@.len());
    assert("Slight rain showers"@.len() != "Thunderstorm"@.len());
    assert("Slight snow showers"@.len() != "Thunderstorm"@.len());
    assert("Snow"@.len() != "Thunderstorm"@.len());
    assert("Snow showers"@[0] != "Thunderstorm"@[0]);
    assert("Violent rain showers"@.len() != "Thunderstorm"@.len());
}
} // verus!
