use rustormy::errors::RustormyError;
use rustormy::weather::yr::yr_reply_check;
use rustormy::models::{Language, WeatherConditionIcon};
use rustormy::weather::yr::{symbol_code_to_description, symbol_code_to_icon, yr_weather_code, YrWeatherCode};

#[test]
fn test_yr_weather_code_known() {
    assert_eq!(yr_weather_code("clearsky"), Some(YrWeatherCode::ClearSky));
    assert_eq!(yr_weather_code("clearsky_day"), Some(YrWeatherCode::ClearSky));
    assert_eq!(yr_weather_code("clearsky_night"), Some(YrWeatherCode::ClearSky));
    assert_eq!(yr_weather_code("fair"), Some(YrWeatherCode::Fair));
    assert_eq!(yr_weather_code("fair_day"), Some(YrWeatherCode::Fair));
    assert_eq!(yr_weather_code("fair_night"), Some(YrWeatherCode::Fair));
    assert_eq!(yr_weather_code("fog"), Some(YrWeatherCode::Fog));
    assert_eq!(yr_weather_code("heavyrain"), Some(YrWeatherCode::HeavyRain));
    assert_eq!(yr_weather_code("snowandthunder"), Some(YrWeatherCode::SnowAndThunder));
}

#[test]
fn test_yr_weather_code_unknown() {
    assert_eq!(yr_weather_code("notacode"), None);
    assert_eq!(yr_weather_code(""), None);
}

#[test]
fn test_yr_weather_code_csv_typos() {
    assert_eq!(
        yr_weather_code("lightssleetshowersandthunder"),
        Some(YrWeatherCode::LightSleetShowersAndThunder)
    );
    assert_eq!(
        yr_weather_code("lightssnowshowersandthunder"),
        Some(YrWeatherCode::LightSnowShowersAndThunder)
    );
}

#[test]
fn test_fair_night_description_and_icon() {
    assert_eq!(symbol_code_to_description("fair_night", Language::English), "Mostly clear");
    assert_eq!(symbol_code_to_icon("fair_night"), WeatherConditionIcon::PartlyCloudy);
}

#[test]
fn test_unknown_code_fallback() {
    assert_eq!(symbol_code_to_description("xyzzy", Language::English), "Unknown (xyzzy)");
    assert_eq!(symbol_code_to_icon("xyzzy"), WeatherConditionIcon::Unknown);
}

#[test]
fn heavy_rain_symbol_reads_in_russian() {
    assert_eq!(symbol_code_to_description("heavyrain", Language::Russian), "Сильный дождь");
    assert_eq!(symbol_code_to_icon("heavyrain"), WeatherConditionIcon::HeavyShowers);
}

#[test]
fn yr_replies_are_checked_in_order() {
    let api = |m: &str| Err(RustormyError::ApiReturnedError(m.to_string()));
    assert_eq!(yr_reply_check(false, false, false), api("No timeseries returned"));
    assert_eq!(yr_reply_check(true, false, false), api("No forecast data returned"));
    assert_eq!(yr_reply_check(true, true, false), api("No wind direction returned"));
    assert_eq!(yr_reply_check(true, true, true), Ok(()));
}
