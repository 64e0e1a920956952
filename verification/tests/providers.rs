use rustormy::errors::RustormyError;
use rustormy::models::{Degrees, Language, Location, Provider, Units, WeatherConditionIcon};
use rustormy::weather::open_meteo::{self, ApiResponse, GeocodingRequest, GeocodingResponse};
use rustormy::weather::open_weather_map::{self, description_or_unknown, GeocodingApiResponse, WeatherInfo, WeatherResponseData};
use rustormy::weather::tomorrow_io::{self, LocationData};
use rustormy::weather::weather_api::{self, WeatherApiLocation};
use rustormy::weather::weather_bit::{self, first_observation, WeatherDescription};
use rustormy::weather::world_weather_online::{
    area_name, first_condition, WwoCurrentCondition, WwoError, WwoErrorMessage, WwoWeatherDesc,
};
use rustormy::weather::{cache_file_name, enrich_steps, found_city, GetWeatherProvider};

fn place(name: &str, lat: f64, lon: f64) -> Location {
    Location { name: name.to_string(), latitude: Degrees { bits: lat.to_bits() }, longitude: Degrees { bits: lon.to_bits() } }
}

#[test]
fn test_geocoding_into_location() {
    let data = GeocodingResponse { results: Some(vec![place("Da Nang", 16.06778, 108.22083)]) };
    let location = data.into_location().unwrap();
    assert_eq!(location.name, "Da Nang");
    assert_eq!(f64::from_bits(location.latitude.bits), 16.06778);
    assert_eq!(f64::from_bits(location.longitude.bits), 108.22083);
}

#[test]
fn test_geocoding_empty_results() {
    let data = GeocodingResponse { results: Some(vec![]) };
    assert!(data.into_location().is_none());
    assert!(GeocodingResponse { results: None }.into_location().is_none());
}

#[test]
fn open_meteo_descriptions_and_icons() {
    assert_eq!(open_meteo::description(0, Language::English), "Clear");
    assert_eq!(open_meteo::description(1, Language::English), "Mostly clear");
    assert_eq!(open_meteo::description(95, Language::English), "Thunderstorm");
    assert_eq!(open_meteo::description(100, Language::English), "Unknown");
    assert_eq!(open_meteo::icon(0), WeatherConditionIcon::Clear);
    assert_eq!(open_meteo::icon(1), WeatherConditionIcon::PartlyCloudy);
    assert_eq!(open_meteo::icon(95), WeatherConditionIcon::Thunderstorm);
    assert_eq!(open_meteo::icon(100), WeatherConditionIcon::Unknown);
    assert_eq!(open_meteo::icon(80), WeatherConditionIcon::LightShowers);
    assert_eq!(open_meteo::icon(77), WeatherConditionIcon::HeavySnow);
}

#[test]
fn open_meteo_refusals_carry_the_reason() {
    let refused: ApiResponse<u8> = ApiResponse::Refused { reason: Some("Parameter out of range".to_string()) };
    assert_eq!(refused.into_result(), Err(RustormyError::ApiReturnedError("Parameter out of range".to_string())));
    let refused: ApiResponse<u8> = ApiResponse::Refused { reason: None };
    assert_eq!(refused.into_result(), Err(RustormyError::ApiReturnedError("Unknown error".to_string())));
    let data: ApiResponse<u8> = ApiResponse::Data(3);
    assert_eq!(data.into_result(), Ok(3));
}

#[test]
fn open_meteo_requests() {
    let request = GeocodingRequest::new("Lisbon", Language::Spanish);
    assert_eq!((request.name, request.count, request.language), ("Lisbon", 1, "es"));
    assert_eq!(open_meteo::unit_params(Units::Imperial), ("fahrenheit", "mph", "inch"));
    assert_eq!(open_meteo::unit_params(Units::Metric), ("celsius", "ms", "mm"));
}

#[test]
fn open_weather_map_conditions() {
    let data = WeatherResponseData {
        weather: vec![WeatherInfo { id: 500, description: "light rain".to_string() }],
        name: None,
    };
    assert_eq!(data.description(), Some("Light rain".to_string()));
    assert_eq!(data.icon(), WeatherConditionIcon::LightShowers);
    let empty = WeatherResponseData { weather: vec![], name: None };
    assert_eq!(empty.description(), None);
    assert_eq!(empty.icon(), WeatherConditionIcon::Unknown);
    assert_eq!(description_or_unknown(None, Language::Russian), "Неизвестно");
    assert_eq!(open_weather_map::condition_icon(501), WeatherConditionIcon::HeavyShowers);
    assert_eq!(open_weather_map::condition_icon(612), WeatherConditionIcon::LightSnow);
    assert_eq!(open_weather_map::condition_icon(611), WeatherConditionIcon::HeavySnow);
    assert_eq!(open_weather_map::condition_icon(900), WeatherConditionIcon::Unknown);
}

#[test]
fn open_weather_map_city_search_takes_the_last_place() {
    let found = GeocodingApiResponse::Found(vec![place("A", 1.0, 2.0), place("B", 3.0, 4.0)]);
    assert_eq!(found.into_location().map(|l| l.name), Some("B".to_string()));
    let refused = GeocodingApiResponse::Refused { message: "bad key".to_string() };
    assert!(refused.into_location().is_none());
    assert_eq!(found_city(None, "Atlantis").unwrap_err(), RustormyError::CityNotFound("Atlantis".to_string()));
}

#[test]
fn test_parse_data() {
    let location = LocationData { name: "ბათუმი, აჭარის ავტონომიური რესპუბლიკა, საქართველო".to_string() };
    assert_eq!(location.name(), "ბათუმი, საქართველო");
    assert_eq!(tomorrow_io::icon(4200), WeatherConditionIcon::LightShowers);
    assert_eq!(tomorrow_io::description(4200, Language::English), "Light rain");
}

#[test]
fn tomorrow_io_test_parse_error() {
    let error = tomorrow_io::api_error(401001, "Invalid Auth", "...");
    assert_eq!(error, RustormyError::ApiReturnedError("#401001 Invalid Auth: ...".to_string()));
}

#[test]
fn tomorrow_io_names_keep_long_cities_alone() {
    let long = LocationData { name: "Llanfairpwllgwyngyll village, Wales, United Kingdom".to_string() };
    assert_eq!(long.name(), "Llanfairpwllgwyngyll village");
    let single = LocationData { name: "  Oslo  ".to_string() };
    assert_eq!(single.name(), "  Oslo  ");
    let spaced = LocationData { name: " Paris ,Île-de-France,  France ".to_string() };
    assert_eq!(spaced.name(), "Paris, France");
}

#[test]
fn test_parse_weather() {
    let location = WeatherApiLocation {
        name: "Batumi".to_string(),
        region: "Ajaria".to_string(),
        country: "Georgia".to_string(),
        lat: "41.6386".to_string(),
        lon: "41.6372".to_string(),
    };
    assert_eq!(location.location_name(), "Batumi, Ajaria, Georgia");
    assert_eq!(weather_api::icon(1003), WeatherConditionIcon::PartlyCloudy);
}

#[test]
fn weather_api_test_parse_error() {
    let error = weather_api::api_error(1006, "No matching location found.");
    assert_eq!(error, RustormyError::ApiReturnedError("1006 No matching location found.".to_string()));
    let negative = weather_api::api_error(-7, "odd");
    assert_eq!(negative, RustormyError::ApiReturnedError("-7 odd".to_string()));
}

#[test]
fn weather_api_names_without_parts() {
    let nameless = WeatherApiLocation {
        name: String::new(),
        region: "R".to_string(),
        country: "C".to_string(),
        lat: "1.5".to_string(),
        lon: "-2.25".to_string(),
    };
    assert_eq!(nameless.location_name(), "1.5, -2.25");
    let no_region = WeatherApiLocation {
        name: "Town".to_string(),
        region: String::new(),
        country: "Land".to_string(),
        lat: String::new(),
        lon: String::new(),
    };
    assert_eq!(no_region.location_name(), "Town, Land");
}

#[test]
fn test_parse_weather_api_response() {
    let description = WeatherDescription { description: "Partly cloudy".to_string(), code: 802 };
    assert_eq!(description.icon(), WeatherConditionIcon::PartlyCloudy);
    let first = first_observation(1, vec!["London".to_string()], "London".to_string());
    assert_eq!(first, Ok("London".to_string()));
}

#[test]
fn weather_bit_empty_replies_mean_an_unknown_city() {
    let none: Result<u8, RustormyError> = first_observation(0, vec![1], "Nowhere".to_string());
    assert_eq!(none, Err(RustormyError::CityNotFound("Nowhere".to_string())));
    let empty: Result<u8, RustormyError> = first_observation(3, vec![], "Nowhere".to_string());
    assert_eq!(empty, Err(RustormyError::CityNotFound("Nowhere".to_string())));
    assert_eq!(weather_bit::units_param(Units::Imperial), "I");
}

fn desc(text: &str) -> Vec<WwoWeatherDesc> {
    vec![WwoWeatherDesc { value: text.to_string() }]
}

fn wwo_condition() -> WwoCurrentCondition {
    WwoCurrentCondition {
        temp_c: "14".to_string(),
        temp_f: "57".to_string(),
        weather_code: "119".to_string(),
        weather_desc: desc("Cloudy "),
        lang_ru: vec![],
        lang_es: desc(" Nublado"),
        lang_ko: vec![],
        windspeed_miles: "7".to_string(),
        windspeed_kmph: "11".to_string(),
        winddir_degree: "250".to_string(),
        precip_mm: "0.0".to_string(),
        precip_inches: "0.0".to_string(),
        humidity: "63".to_string(),
        pressure: "1012".to_string(),
        feels_like_c: "13".to_string(),
        feels_like_f: "55".to_string(),
        uv_index: "3".to_string(),
    }
}

#[test]
fn test_parse_wwo_response() {
    let condition = first_condition(vec![wwo_condition()]).unwrap();
    assert_eq!(area_name(&desc("London"), &desc("United Kingdom")), Some("London, United Kingdom".to_string()));
    assert_eq!(condition.humidity(), Ok(63));
    assert_eq!(condition.icon(), Ok(WeatherConditionIcon::Cloudy));
    assert_eq!(condition.desc(Language::English), Ok("Cloudy".to_string()));
}

#[test]
fn wwo_values_that_cannot_be_read() {
    let mut condition = wwo_condition();
    condition.humidity = "6x".to_string();
    condition.pressure = String::new();
    condition.winddir_degree = "70000".to_string();
    assert_eq!(
        condition.humidity(),
        Err(RustormyError::ApiReturnedError("Invalid humidity value: ParseIntError { kind: InvalidDigit }".to_string()))
    );
    assert_eq!(
        condition.pressure(),
        Err(RustormyError::ApiReturnedError("Invalid pressure value: ParseIntError { kind: Empty }".to_string()))
    );
    assert_eq!(
        condition.wind_direction(),
        Err(RustormyError::ApiReturnedError("Invalid wind direction value: ParseIntError { kind: PosOverflow }".to_string()))
    );
    assert_eq!(
        condition.desc(Language::Russian),
        Err(RustormyError::ApiReturnedError("No description available in the requested language".to_string()))
    );
    assert_eq!(condition.desc(Language::Spanish), Ok("Nublado".to_string()));
    assert!(first_condition(vec![]).is_err());
    assert_eq!(area_name(&desc("Town"), &desc("")), Some("Town".to_string()));
    assert_eq!(area_name(&vec![], &desc("Land")), None);
}

#[test]
fn wwo_error_messages_are_joined() {
    let error = WwoError {
        error: vec![WwoErrorMessage { msg: "one".to_string() }, WwoErrorMessage { msg: "two".to_string() }],
    };
    assert_eq!(error.get_message(), "one, two");
    assert_eq!(WwoError { error: vec![] }.get_message(), "");
}

#[test]
fn providers_are_made_by_kind() {
    for p in [
        Provider::OpenMeteo,
        Provider::OpenWeatherMap,
        Provider::WorldWeatherOnline,
        Provider::WeatherApi,
        Provider::WeatherBit,
        Provider::TomorrowIo,
        Provider::Yr,
    ] {
        assert_eq!(GetWeatherProvider::new(p).kind(), p);
    }
}

#[test]
fn cache_files_are_named_by_city_and_language() {
    assert_eq!(cache_file_name("New York", Language::Korean), "geocoding_New_York_ko.json");
}

#[test]
fn enrich_fills_only_what_is_missing() {
    let steps = enrich_steps(None, false, "");
    assert!(steps.compute_is_day && !steps.fetch_uv);
    let steps = enrich_steps(Some(false), false, "key");
    assert!(!steps.compute_is_day && steps.fetch_uv);
    let steps = enrich_steps(Some(true), true, "key");
    assert!(!steps.compute_is_day && !steps.fetch_uv);
}
