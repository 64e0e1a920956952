//! Interpretation of the providers' responses, and the choice of provider.

use vstd::prelude::*;
use crate::errors::RustormyError;
use crate::models::{Language, Location, Provider};
use crate::text::{chars_of, push_char};

pub mod open_meteo;
pub mod open_weather_map;
pub mod tomorrow_io;
pub mod weather_api;
pub mod weather_bit;
pub mod world_weather_online;
pub mod yr;

use open_meteo::OpenMeteo;
use open_weather_map::OpenWeatherMap;
use tomorrow_io::TomorrowIo;
use weather_api::WeatherApi;
use weather_bit::WeatherBit;
use world_weather_online::WorldWeatherOnline;
use yr::Yr;

verus! {

/// The provider that answers a weather request.
#[derive(Debug, Clone, Copy, PartialEq, Eq)]
pub enum GetWeatherProvider {
    OpenMeteo(OpenMeteo),
    OpenWeatherMap(OpenWeatherMap),
    WorldWeatherOnline(WorldWeatherOnline),
    WeatherApi(WeatherApi),
    WeatherBit(WeatherBit),
    TomorrowIo(TomorrowIo),
    Yr(Yr),
}

impl GetWeatherProvider {
    /// Which provider this is.
    pub open spec fn spec_kind(self) -> Provider {
        match self {
            GetWeatherProvider::OpenMeteo(_) => Provider::OpenMeteo,
            GetWeatherProvider::OpenWeatherMap(_) => Provider::OpenWeatherMap,
            GetWeatherProvider::WorldWeatherOnline(_) => Provider::WorldWeatherOnline,
            GetWeatherProvider::WeatherApi(_) => Provider::WeatherApi,
            GetWeatherProvider::WeatherBit(_) => Provider::WeatherBit,
            GetWeatherProvider::TomorrowIo(_) => Provider::TomorrowIo,
            GetWeatherProvider::Yr(_) => Provider::Yr,
        }
    }

    /// The provider of the configured kind.
    pub fn new(provider_type: Provider) -> (r: GetWeatherProvider)
        ensures
            r.spec_kind() == provider_type,
    {
        match provider_type {
            Provider::OpenMeteo => GetWeatherProvider::OpenMeteo(OpenMeteo {}),
            Provider::OpenWeatherMap => GetWeatherProvider::OpenWeatherMap(OpenWeatherMap {}),
            Provider::WorldWeatherOnline => GetWeatherProvider::WorldWeatherOnline(WorldWeatherOnline {}),
            Provider::WeatherApi => GetWeatherProvider::WeatherApi(WeatherApi {}),
            Provider::WeatherBit => GetWeatherProvider::WeatherBit(WeatherBit {}),
            Provider::TomorrowIo => GetWeatherProvider::TomorrowIo(TomorrowIo {}),
            Provider::Yr => GetWeatherProvider::Yr(Yr {}),
        }
    }

    /// The configured kind of this provider.
    pub fn kind(&self) -> (r: Provider)
        ensures
            r == self.spec_kind(),
    {
        match self {
            GetWeatherProvider::OpenMeteo(_) => Provider::OpenMeteo,
            GetWeatherProvider::OpenWeatherMap(_) => Provider::OpenWeatherMap,
            GetWeatherProvider::WorldWeatherOnline(_) => Provider::WorldWeatherOnline,
            GetWeatherProvider::WeatherApi(_) => Provider::WeatherApi,
            GetWeatherProvider::WeatherBit(_) => Provider::WeatherBit,
            GetWeatherProvider::TomorrowIo(_) => Provider::TomorrowIo,
            GetWeatherProvider::Yr(_) => Provider::Yr,
        }
    }
}

/// The place a city search found, or `CityNotFound` for the city when it
/// found none.
pub fn found_city(location: Option<Location>, city: &str) -> (r: Result<Location, RustormyError>)
    ensures
        location matches Some(l) ==> r == Ok::<Location, RustormyError>(l),
        location is None ==> (r matches Err(RustormyError::CityNotFound(c)) && c@ == city@),
{
    match location {
        Some(l) => Ok(l),
        None => Err(RustormyError::CityNotFound(city.to_string())),
    }
}

/// `s` with every space replaced by an underscore.
pub open spec fn underscored(s: Seq<char>) -> Seq<char> {
    s.map_values(|c: char| if c == ' ' { '_' } else { c })
}

/// The name of the file that caches the place found for a city in a
/// language: `geocoding_`, the city with underscores for spaces, `_`, the
/// language code and `.json`.
pub open spec fn spec_cache_file_name(city: Seq<char>, language: Language) -> Seq<char> {
    "geocoding_"@ + underscored(city) + "_"@ + language.spec_code() + ".json"@
}

pub fn cache_file_name(city: &str, language: Language) -> (r: String)
    ensures
        r@ == spec_cache_file_name(city@, language),
{
    let v = chars_of(city);
    let mut r = String::new();
    r.append("geocoding_");
    let ghost prefix = r@;
    let mut i: usize = 0;
    while i < v.len()
        invariant
            i <= v@.len(),
            r@ == prefix + underscored(v@.take(i as int)),
        decreases v@.len() - i,
    {
        let c = v[i];
        if c == ' ' {
            push_char(&mut r, '_');
        } else {
            push_char(&mut r, c);
        }
        assert(underscored(v@.take(i + 1)) =~= underscored(v@.take(i as int)).push(if c == ' ' { '_' } else { c }));
        i += 1;
    }
    assert(v@.take(v@.len() as int) =~= v@);
    r.append("_");
    r.append(language.code());
    r.append(".json");
    r
}

/// What must be looked up to complete a report: whether it is day (when
/// the provider did not say) and the UV index (when the provider did not
/// give one and an OpenUV key is configured).
#[derive(Debug, Clone, Copy, PartialEq, Eq)]
pub struct EnrichSteps {
    pub compute_is_day: bool,
    pub fetch_uv: bool,
}

pub fn enrich_steps(is_day: Option<bool>, has_uv_index: bool, open_uv_key: &str) -> (r: EnrichSteps)
    ensures
        r.compute_is_day == (is_day is None),
        r.fetch_uv == (!has_uv_index && open_uv_key@.len() > 0),
{
    EnrichSteps { compute_is_day: is_day.is_none(), fetch_uv: !has_uv_index && !open_uv_key.is_empty() }
}

} // verus!
