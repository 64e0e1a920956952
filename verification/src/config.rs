use vstd::prelude::*;
use crate::display::icons::{spec_simple_theme, ColorTheme};
use crate::errors::RustormyError;
use crate::text::concat2;
use crate::models::{
    Degrees, Language, OutputFormat, Provider, TextMode, Units, LATITUDE_LIMIT_BITS, LONGITUDE_LIMIT_BITS,
};

verus! {

/// The API keys of the providers that need one; an empty key is a missing
/// key.
#[derive(Debug, Clone)]
pub struct ApiKeys {
    pub open_weather_map: String,
    pub world_weather_online: String,
    pub weather_api: String,
    pub weather_bit: String,
    pub tomorrow_io: String,
    pub open_uv: String,
}

impl Default for ApiKeys {
    fn default() -> (r: ApiKeys)
        ensures
            r.open_weather_map@.len() == 0,
            r.world_weather_online@.len() == 0,
            r.weather_api@.len() == 0,
            r.weather_bit@.len() == 0,
            r.tomorrow_io@.len() == 0,
            r.open_uv@.len() == 0,
    {
        ApiKeys {
            open_weather_map: String::new(),
            world_weather_online: String::new(),
            weather_api: String::new(),
            weather_bit: String::new(),
            tomorrow_io: String::new(),
            open_uv: String::new(),
        }
    }
}

/// How the report is written out.
#[derive(Debug, Clone, Copy, PartialEq, Eq, Structural)]
pub struct FormatterConfig {
    pub output_format: OutputFormat,
    pub text_mode: TextMode,
    pub use_colors: bool,
    pub show_city_name: bool,
    pub align_right: bool,
    pub wind_in_degrees: bool,
    pub units: Units,
    pub language: Language,
    pub color_theme: ColorTheme,
}

pub open spec fn spec_default_format() -> FormatterConfig {
    FormatterConfig {
        output_format: OutputFormat::Text,
        text_mode: TextMode::Full,
        use_colors: false,
        show_city_name: false,
        align_right: false,
        wind_in_degrees: false,
        units: Units::Metric,
        language: Language::English,
        color_theme: spec_simple_theme(),
    }
}

impl Default for FormatterConfig {
    fn default() -> (r: FormatterConfig)
        ensures
            r == spec_default_format(),
    {
        FormatterConfig {
            output_format: OutputFormat::Text,
            text_mode: TextMode::Full,
            use_colors: false,
            show_city_name: false,
            align_right: false,
            wind_in_degrees: false,
            units: Units::Metric,
            language: Language::English,
            color_theme: ColorTheme::simple(),
        }
    }
}

impl ApiKeys {
    /// The key configured for `provider`; providers that need no key have
    /// none.
    pub open spec fn spec_key_for(&self, provider: Provider) -> Seq<char> {
        match provider {
            Provider::OpenWeatherMap => self.open_weather_map@,
            Provider::WorldWeatherOnline => self.world_weather_online@,
            Provider::WeatherApi => self.weather_api@,
            Provider::WeatherBit => self.weather_bit@,
            Provider::TomorrowIo => self.tomorrow_io@,
            Provider::OpenMeteo | Provider::Yr => Seq::empty(),
        }
    }

    /// A provider that needs a key may be used once its key is not empty.
    pub fn validate(&self, provider: Provider) -> (r: Result<(), RustormyError>)
        ensures
            r is Ok <==> !provider.spec_needs_api_key() || self.spec_key_for(provider).len() > 0,
            r is Err ==> r == Err::<(), RustormyError>(RustormyError::MissingApiKey(provider)),
    {
        let has_api_key = match provider {
            Provider::OpenMeteo | Provider::Yr => return Ok(()),
            Provider::OpenWeatherMap => !self.open_weather_map.as_str().is_empty(),
            Provider::WorldWeatherOnline => !self.world_weather_online.as_str().is_empty(),
            Provider::WeatherApi => !self.weather_api.as_str().is_empty(),
            Provider::WeatherBit => !self.weather_bit.as_str().is_empty(),
            Provider::TomorrowIo => !self.tomorrow_io.as_str().is_empty(),
        };
        if has_api_key {
            Ok(())
        } else {
            Err(RustormyError::MissingApiKey(provider))
        }
    }
}

/// The live screen refreshes every five minutes unless told otherwise.
pub const DEFAULT_LIVE_MODE_INTERVAL: u64 = 300;
/// Requests to the providers time out after ten seconds unless told
/// otherwise.
pub const DEFAULT_CONNECT_TIMEOUT: u64 = 10;

/// The default refresh interval of the live screen, in seconds.
pub fn default_live_mode_interval() -> (r: u64)
    ensures
        r == DEFAULT_LIVE_MODE_INTERVAL,
{
    DEFAULT_LIVE_MODE_INTERVAL
}

/// The default timeout of the providers' APIs, in seconds.
pub fn default_connect_timeout() -> (r: u64)
    ensures
        r == DEFAULT_CONNECT_TIMEOUT,
{
    DEFAULT_CONNECT_TIMEOUT
}

/// The settings of a run: the configuration file with the command line
/// laid over it.
#[derive(Debug)]
pub struct Config {
    /// Providers to try in order: when one fails, the next is asked.
    pub providers: Vec<Provider>,
    pub api_keys: ApiKeys,
    pub city: Option<String>,
    pub lat: Option<Degrees>,
    pub lon: Option<Degrees>,
    pub format: FormatterConfig,
    pub live_mode: bool,
    /// Seconds between refreshes of the live screen; 0 means the default.
    pub live_mode_interval: u64,
    pub use_geocoding_cache: bool,
    /// 0 = errors, 1 = warnings, 2 = info, 3 = debug.
    pub verbose: u8,
    /// Seconds before a request to a provider gives up; 0 means the default.
    pub connect_timeout: u64,
}

/// The command-line options that override the configuration file.
#[derive(Debug)]
pub struct Cli {
    pub city: Option<String>,
    pub lat: Option<Degrees>,
    pub lon: Option<Degrees>,
    pub provider: Option<Provider>,
    pub units: Option<Units>,
    pub output_format: Option<OutputFormat>,
    pub language: Option<Language>,
    pub show_city_name: bool,
    pub use_colors: bool,
    pub use_degrees_for_wind: bool,
    pub compact_mode: bool,
    pub one_line_mode: bool,
    pub text_mode: Option<TextMode>,
    pub align_right: bool,
    pub live_mode: bool,
    pub live_mode_interval: Option<u64>,
    pub no_cache: bool,
    pub verbose: u8,
    pub clear_cache: bool,
}

/// Whether the location can be settled: by a city, or by both coordinates.
pub open spec fn spec_has_location(c: &Config) -> bool {
    c.city is Some || (c.lat is Some && c.lon is Some)
}

/// Whether a list of providers names `p`.
pub open spec fn names(providers: Seq<Provider>, p: Provider) -> bool {
    providers.contains(p)
}

/// Whether every provider of the list that needs a key has one.
pub open spec fn spec_first_missing_key(c: &Config) -> Option<Provider> {
    let ps = c.providers@;
    if names(ps, Provider::OpenWeatherMap) && c.api_keys.open_weather_map@.len() == 0 {
        Some(Provider::OpenWeatherMap)
    } else if names(ps, Provider::WorldWeatherOnline) && c.api_keys.world_weather_online@.len() == 0 {
        Some(Provider::WorldWeatherOnline)
    } else if names(ps, Provider::WeatherApi) && c.api_keys.weather_api@.len() == 0 {
        Some(Provider::WeatherApi)
    } else if names(ps, Provider::WeatherBit) && c.api_keys.weather_bit@.len() == 0 {
        Some(Provider::WeatherBit)
    } else if names(ps, Provider::TomorrowIo) && c.api_keys.tomorrow_io@.len() == 0 {
        Some(Provider::TomorrowIo)
    } else {
        None
    }
}

/// What `validate` answers: the first check that fails, in the order of
/// the checks, or success.
pub open spec fn spec_validate(c: &Config) -> Result<(), RustormyError> {
    if !spec_has_location(c) {
        Err(RustormyError::NoLocationProvided)
    } else if c.city is None && c.format.show_city_name {
        Err(RustormyError::InvalidConfiguration("Cannot show city name when no city is provided"))
    } else if c.providers@.len() == 0 {
        Err(RustormyError::InvalidConfiguration("At least one provider must be specified"))
    } else if spec_first_missing_key(c) is Some {
        Err(RustormyError::MissingApiKey(spec_first_missing_key(c)->0))
    } else if c.lat is Some && c.lon is Some && !(c.lat->0.spec_within(LATITUDE_LIMIT_BITS)
        && c.lon->0.spec_within(LONGITUDE_LIMIT_BITS)) {
        Err(RustormyError::InvalidCoordinates { lat: c.lat->0, lon: c.lon->0 })
    } else {
        Ok(())
    }
}

/// Whether `providers` names `p`.
fn contains_provider(providers: &Vec<Provider>, p: Provider) -> (r: bool)
    ensures
        r == providers@.contains(p),
{
    let mut i: usize = 0;
    while i < providers.len()
        invariant
            0 <= i <= providers@.len(),
            forall|j: int| 0 <= j < i ==> providers@[j] != p,
        decreases providers@.len() - i,
    {
        if providers[i] == p {
            assert(providers@[i as int] == p);
            return true;
        }
        i += 1;
    }
    false
}

impl Config {
    /// Checks that the settings can give a report: a location is given, the
    /// city name is shown only when there is a city, at least one provider
    /// is listed, every listed provider that needs a key has one, and the
    /// coordinates lie within -90..=90 and -180..=180.
    pub fn validate(&self) -> (r: Result<(), RustormyError>)
        ensures
            r == spec_validate(self),
    {
        if self.city.is_none() && (self.lat.is_none() || self.lon.is_none()) {
            return Err(RustormyError::NoLocationProvided);
        }
        if self.city.is_none() && self.format.show_city_name {
            return Err(RustormyError::InvalidConfiguration("Cannot show city name when no city is provided"));
        }
        if self.providers.len() == 0 {
            return Err(RustormyError::InvalidConfiguration("At least one provider must be specified"));
        }
        if contains_provider(&self.providers, Provider::OpenWeatherMap)
            && self.api_keys.open_weather_map.as_str().is_empty() {
            return Err(RustormyError::MissingApiKey(Provider::OpenWeatherMap));
        }
        if contains_provider(&self.providers, Provider::WorldWeatherOnline)
            && self.api_keys.world_weather_online.as_str().is_empty() {
            return Err(RustormyError::MissingApiKey(Provider::WorldWeatherOnline));
        }
        if contains_provider(&self.providers, Provider::WeatherApi)
            && self.api_keys.weather_api.as_str().is_empty() {
            return Err(RustormyError::MissingApiKey(Provider::WeatherApi));
        }
        if contains_provider(&self.providers, Provider::WeatherBit)
            && self.api_keys.weather_bit.as_str().is_empty() {
            return Err(RustormyError::MissingApiKey(Provider::WeatherBit));
        }
        if contains_provider(&self.providers, Provider::TomorrowIo)
            && self.api_keys.tomorrow_io.as_str().is_empty() {
            return Err(RustormyError::MissingApiKey(Provider::TomorrowIo));
        }
        match (self.lat, self.lon) {
            (Some(lat), Some(lon)) => {
                if !(lat.within(LATITUDE_LIMIT_BITS) && lon.within(LONGITUDE_LIMIT_BITS)) {
                    return Err(RustormyError::InvalidCoordinates { lat, lon });
                }
            },
            _ => {},
        }
        Ok(())
    }
}

/// A configuration that passes `validate` has a key for every listed
/// provider that needs one, so each of them passes its own key check.
pub proof fn lemma_valid_config_has_keys(c: &Config, p: Provider)
    requires
        spec_validate(c) is Ok,
        c.providers@.contains(p),
    ensures
        !p.spec_needs_api_key() || c.api_keys.spec_key_for(p).len() > 0,
{
}

impl Default for Config {
    fn default() -> (r: Config)
        ensures
            r.providers@ == seq![Provider::OpenMeteo],
            r.api_keys.open_weather_map@.len() == 0,
            r.api_keys.world_weather_online@.len() == 0,
            r.api_keys.weather_api@.len() == 0,
            r.api_keys.weather_bit@.len() == 0,
            r.api_keys.tomorrow_io@.len() == 0,
            r.api_keys.open_uv@.len() == 0,
            r.city is None,
            r.lat is None,
            r.lon is None,
            r.format == spec_default_format(),
            !r.live_mode,
            r.live_mode_interval == DEFAULT_LIVE_MODE_INTERVAL,
            !r.use_geocoding_cache,
            r.verbose == 0,
            r.connect_timeout == DEFAULT_CONNECT_TIMEOUT,
    {
        let mut providers = Vec::new();
        providers.push(Provider::OpenMeteo);
        Config {
            providers,
            api_keys: ApiKeys::default(),
            city: None,
            lat: None,
            lon: None,
            format: FormatterConfig::default(),
            live_mode: false,
            live_mode_interval: DEFAULT_LIVE_MODE_INTERVAL,
            use_geocoding_cache: false,
            verbose: 0,
            connect_timeout: DEFAULT_CONNECT_TIMEOUT,
        }
    }
}

/// Where the location of the report comes from.
#[derive(Debug, Clone, PartialEq, Eq)]
pub enum LocationSource {
    /// The coordinates that were given.
    Coordinates { lat: Degrees, lon: Degrees },
    /// The city that a geocoder must look up.
    City(String),
}

/// What the failure of a provider was, as far as the fallback cares.
#[derive(Debug, Clone, Copy, PartialEq, Eq, Structural)]
pub enum FailureKind {
    /// The provider answered with an error.
    Api,
    /// The request did not go through.
    Http,
    /// Anything else (a missing key, an unknown city, a bad setting).
    Other,
}

impl Config {
    /// The configured providers, in the order they are tried.
    pub fn providers(&self) -> (r: &Vec<Provider>)
        ensures
            r@ == self.providers@,
    {
        &self.providers
    }

    /// Takes the next provider to try off the front of the list.
    pub fn provider(&mut self) -> (r: Option<Provider>)
        ensures
            old(self).providers@.len() == 0 ==> r is None && final(self).providers@ == old(self).providers@,
            old(self).providers@.len() > 0 ==> r == Some(old(self).providers@[0])
                && final(self).providers@ == old(self).providers@.drop_first(),
            final(self).api_keys == old(self).api_keys,
            final(self).city == old(self).city,
            final(self).lat == old(self).lat,
            final(self).lon == old(self).lon,
            final(self).format == old(self).format,
            final(self).live_mode == old(self).live_mode,
            final(self).live_mode_interval == old(self).live_mode_interval,
            final(self).use_geocoding_cache == old(self).use_geocoding_cache,
            final(self).verbose == old(self).verbose,
            final(self).connect_timeout == old(self).connect_timeout,
            final(self).view() == (ConfigView { providers: final(self).providers@, ..old(self).view() }),
    {
        if self.providers.len() == 0 {
            None
        } else {
            let p = self.providers.remove(0);
            assert(self.providers@ =~= old(self).providers@.drop_first());
            Some(p)
        }
    }

    /// After a provider failed: the next provider to try, taken off the
    /// list, when the failure was an API or HTTP error and one remains;
    /// otherwise none, and the list is left as it was.
    pub fn fallback(&mut self, failure: FailureKind) -> (r: Option<Provider>)
        ensures
            failure == FailureKind::Other ==> r is None && final(self).providers@ == old(self).providers@,
            failure != FailureKind::Other && old(self).providers@.len() == 0 ==> r is None
                && final(self).providers@ == old(self).providers@,
            failure != FailureKind::Other && old(self).providers@.len() > 0 ==> r == Some(old(self).providers@[0])
                && final(self).providers@ == old(self).providers@.drop_first(),
            final(self).view() == (ConfigView { providers: final(self).providers@, ..old(self).view() }),
            final(self).api_keys == old(self).api_keys,
            final(self).city == old(self).city,
            final(self).lat == old(self).lat,
            final(self).lon == old(self).lon,
            final(self).format == old(self).format,
            final(self).live_mode == old(self).live_mode,
            final(self).live_mode_interval == old(self).live_mode_interval,
            final(self).use_geocoding_cache == old(self).use_geocoding_cache,
            final(self).verbose == old(self).verbose,
            final(self).connect_timeout == old(self).connect_timeout,
    {
        match failure {
            FailureKind::Other => None,
            _ => self.provider(),
        }
    }

    pub fn api_keys(&self) -> (r: &ApiKeys)
        ensures
            *r == self.api_keys,
    {
        &self.api_keys
    }

    pub fn city(&self) -> (r: Option<&str>)
        ensures
            self.city is None ==> r is None,
            self.city is Some ==> (r matches Some(x) && x@ == self.city->0@),
    {
        match &self.city {
            Some(c) => Some(c.as_str()),
            None => None,
        }
    }

    /// Both coordinates, when both are given.
    pub fn coordinates(&self) -> (r: Option<(Degrees, Degrees)>)
        ensures
            r == (if self.lat is Some && self.lon is Some {
                Some((self.lat->0, self.lon->0))
            } else {
                None
            }),
    {
        match (self.lat, self.lon) {
            (Some(lat), Some(lon)) => Some((lat, lon)),
            _ => None,
        }
    }

    /// Where the report's location comes from: the coordinates when both
    /// are given, else the city when it is not empty; otherwise no location
    /// was provided.
    pub fn location_source(&self) -> (r: Result<LocationSource, RustormyError>)
        ensures
            self.lat is Some && self.lon is Some ==> r == Ok::<LocationSource, RustormyError>(
                LocationSource::Coordinates { lat: self.lat->0, lon: self.lon->0 }),
            !(self.lat is Some && self.lon is Some) && self.city is Some && self.city->0@.len() > 0
                ==> (r matches Ok(LocationSource::City(x)) && x@ == self.city->0@),
            !(self.lat is Some && self.lon is Some) && !(self.city is Some && self.city->0@.len() > 0)
                ==> r == Err::<LocationSource, RustormyError>(RustormyError::NoLocationProvided),
    {
        match (self.lat, self.lon) {
            (Some(lat), Some(lon)) => Ok(LocationSource::Coordinates { lat, lon }),
            _ => match &self.city {
                Some(c) => {
                    if c.as_str().is_empty() {
                        Err(RustormyError::NoLocationProvided)
                    } else {
                        Ok(LocationSource::City(c.clone()))
                    }
                },
                None => Err(RustormyError::NoLocationProvided),
            },
        }
    }

    pub fn live_mode(&self) -> (r: bool)
        ensures
            r == self.live_mode,
    {
        self.live_mode
    }

    /// Seconds between refreshes of the live screen; an interval of 0 stands
    /// for the default.
    pub fn live_mode_interval(&self) -> (r: u64)
        ensures
            r == if self.live_mode_interval == 0 { DEFAULT_LIVE_MODE_INTERVAL } else { self.live_mode_interval },
    {
        if self.live_mode_interval == 0 {
            default_live_mode_interval()
        } else {
            self.live_mode_interval
        }
    }

    pub fn format(&self) -> (r: &FormatterConfig)
        ensures
            *r == self.format,
    {
        &self.format
    }

    pub fn set_format(&mut self, format: FormatterConfig)
        ensures
            final(self).view() == (ConfigView { format: format, ..old(self).view() }),
            final(self).format == format,
            final(self).providers@ == old(self).providers@,
            final(self).api_keys == old(self).api_keys,
            final(self).city == old(self).city,
            final(self).lat == old(self).lat,
            final(self).lon == old(self).lon,
            final(self).live_mode == old(self).live_mode,
            final(self).live_mode_interval == old(self).live_mode_interval,
            final(self).use_geocoding_cache == old(self).use_geocoding_cache,
            final(self).verbose == old(self).verbose,
            final(self).connect_timeout == old(self).connect_timeout,
    {
        self.format = format;
    }

    pub fn language(&self) -> (r: Language)
        ensures
            r == self.format.language,
    {
        self.format.language
    }

    pub fn units(&self) -> (r: Units)
        ensures
            r == self.format.units,
    {
        self.format.units
    }

    pub fn use_geocoding_cache(&self) -> (r: bool)
        ensures
            r == self.use_geocoding_cache,
    {
        self.use_geocoding_cache
    }

    pub fn verbose(&self) -> (r: u8)
        ensures
            r == self.verbose,
    {
        self.verbose
    }

    /// Seconds before a request to a provider gives up; a timeout of 0
    /// stands for the default.
    pub fn connect_timeout(&self) -> (r: u64)
        ensures
            r == if self.connect_timeout == 0 { DEFAULT_CONNECT_TIMEOUT } else { self.connect_timeout },
    {
        if self.connect_timeout == 0 {
            default_connect_timeout()
        } else {
            self.connect_timeout
        }
    }
}

/// The contents of the API keys.
pub struct ApiKeysView {
    pub open_weather_map: Seq<char>,
    pub world_weather_online: Seq<char>,
    pub weather_api: Seq<char>,
    pub weather_bit: Seq<char>,
    pub tomorrow_io: Seq<char>,
    pub open_uv: Seq<char>,
}

impl ApiKeys {
    pub open spec fn view(&self) -> ApiKeysView {
        ApiKeysView {
            open_weather_map: self.open_weather_map@,
            world_weather_online: self.world_weather_online@,
            weather_api: self.weather_api@,
            weather_bit: self.weather_bit@,
            tomorrow_io: self.tomorrow_io@,
            open_uv: self.open_uv@,
        }
    }
}

pub open spec fn opt_view(s: Option<String>) -> Option<Seq<char>> {
    match s {
        Some(x) => Some(x@),
        None => None,
    }
}

/// The contents of a configuration.
#[verifier::ext_equal]
pub struct ConfigView {
    pub providers: Seq<Provider>,
    pub api_keys: ApiKeysView,
    pub city: Option<Seq<char>>,
    pub lat: Option<Degrees>,
    pub lon: Option<Degrees>,
    pub format: FormatterConfig,
    pub live_mode: bool,
    pub live_mode_interval: u64,
    pub use_geocoding_cache: bool,
    pub verbose: u8,
    pub connect_timeout: u64,
}

impl Config {
    pub open spec fn view(&self) -> ConfigView {
        ConfigView {
            providers: self.providers@,
            api_keys: self.api_keys.view(),
            city: opt_view(self.city),
            lat: self.lat,
            lon: self.lon,
            format: self.format,
            live_mode: self.live_mode,
            live_mode_interval: self.live_mode_interval,
            use_geocoding_cache: self.use_geocoding_cache,
            verbose: self.verbose,
            connect_timeout: self.connect_timeout,
        }
    }
}

/// The contents of the command-line options.
pub struct CliView {
    pub city: Option<Seq<char>>,
    pub lat: Option<Degrees>,
    pub lon: Option<Degrees>,
    pub provider: Option<Provider>,
    pub units: Option<Units>,
    pub output_format: Option<OutputFormat>,
    pub language: Option<Language>,
    pub show_city_name: bool,
    pub use_colors: bool,
    pub use_degrees_for_wind: bool,
    pub compact_mode: bool,
    pub one_line_mode: bool,
    pub text_mode: Option<TextMode>,
    pub align_right: bool,
    pub live_mode: bool,
    pub live_mode_interval: Option<u64>,
    pub no_cache: bool,
    pub verbose: u8,
}

impl Cli {
    pub open spec fn view(&self) -> CliView {
        CliView {
            city: opt_view(self.city),
            lat: self.lat,
            lon: self.lon,
            provider: self.provider,
            units: self.units,
            output_format: self.output_format,
            language: self.language,
            show_city_name: self.show_city_name,
            use_colors: self.use_colors,
            use_degrees_for_wind: self.use_degrees_for_wind,
            compact_mode: self.compact_mode,
            one_line_mode: self.one_line_mode,
            text_mode: self.text_mode,
            align_right: self.align_right,
            live_mode: self.live_mode,
            live_mode_interval: self.live_mode_interval,
            no_cache: self.no_cache,
            verbose: self.verbose,
        }
    }
}

pub open spec fn or_keep<T>(given: Option<T>, kept: T) -> T {
    match given {
        Some(x) => x,
        None => kept,
    }
}

/// The format settings after the command line is laid over them: given
/// values replace the file's, set flags switch options on, and an explicit
/// text mode beats `--one-line`, which beats `--compact`.
pub open spec fn spec_merge_format(f: FormatterConfig, cli: CliView) -> FormatterConfig {
    FormatterConfig {
        output_format: or_keep(cli.output_format, f.output_format),
        text_mode: match cli.text_mode {
            Some(t) => t,
            None => if cli.one_line_mode {
                TextMode::OneLine
            } else if cli.compact_mode {
                TextMode::Compact
            } else {
                f.text_mode
            },
        },
        use_colors: f.use_colors || cli.use_colors,
        show_city_name: f.show_city_name || cli.show_city_name,
        align_right: f.align_right || cli.align_right,
        wind_in_degrees: f.wind_in_degrees || cli.use_degrees_for_wind,
        units: or_keep(cli.units, f.units),
        language: or_keep(cli.language, f.language),
        color_theme: f.color_theme,
    }
}

/// The configuration with the command line laid over it.
pub open spec fn spec_merge(c: ConfigView, cli: CliView) -> ConfigView {
    ConfigView {
        providers: match cli.provider {
            Some(p) => seq![p],
            None => c.providers,
        },
        api_keys: c.api_keys,
        city: match cli.city {
            Some(x) => Some(x),
            None => c.city,
        },
        lat: match cli.lat {
            Some(x) => Some(x),
            None => c.lat,
        },
        lon: match cli.lon {
            Some(x) => Some(x),
            None => c.lon,
        },
        format: spec_merge_format(c.format, cli),
        live_mode: c.live_mode || cli.live_mode,
        live_mode_interval: or_keep(cli.live_mode_interval, c.live_mode_interval),
        use_geocoding_cache: c.use_geocoding_cache && !cli.no_cache,
        verbose: if cli.verbose > 0 { cli.verbose } else { c.verbose },
        connect_timeout: c.connect_timeout,
    }
}

/// The format settings with the command line laid over them.
fn merge_format(f: FormatterConfig, cli: &Cli) -> (r: FormatterConfig)
    ensures
        r == spec_merge_format(f, cli.view()),
{
    let text_mode = match cli.text_mode {
        Some(t) => t,
        None => if cli.one_line_mode {
            TextMode::OneLine
        } else if cli.compact_mode {
            TextMode::Compact
        } else {
            f.text_mode
        },
    };
    FormatterConfig {
        output_format: match cli.output_format {
            Some(o) => o,
            None => f.output_format,
        },
        text_mode,
        use_colors: f.use_colors || cli.use_colors,
        show_city_name: f.show_city_name || cli.show_city_name,
        align_right: f.align_right || cli.align_right,
        wind_in_degrees: f.wind_in_degrees || cli.use_degrees_for_wind,
        units: match cli.units {
            Some(u) => u,
            None => f.units,
        },
        language: match cli.language {
            Some(l) => l,
            None => f.language,
        },
        color_theme: f.color_theme,
    }
}

impl Config {
    /// Lays the command-line options over the settings read from the file.
    pub fn merge_cli(&mut self, cli: Cli)
        ensures
            final(self).view() == spec_merge(old(self).view(), cli.view()),
    {
        let ghost cli_view = cli.view();
        self.format = merge_format(self.format, &cli);
        self.city = match cli.city {
            Some(city) => Some(city),
            None => self.city.take(),
        };
        self.lat = match cli.lat {
            Some(lat) => Some(lat),
            None => self.lat,
        };
        self.lon = match cli.lon {
            Some(lon) => Some(lon),
            None => self.lon,
        };
        if let Some(provider) = cli.provider {
            let mut providers = Vec::new();
            providers.push(provider);
            self.providers = providers;
        }
        self.live_mode_interval = match cli.live_mode_interval {
            Some(i) => i,
            None => self.live_mode_interval,
        };
        self.live_mode = self.live_mode || cli.live_mode;
        self.use_geocoding_cache = self.use_geocoding_cache && !cli.no_cache;
        self.verbose = if cli.verbose > 0 { cli.verbose } else { self.verbose };
        assert(self.view() =~= spec_merge(old(self).view(), cli_view));
    }
}

/// Every option given on the command line wins over the file's setting,
/// whatever its value: the merged configuration holds exactly the given
/// value, and an option left out keeps the file's value.
pub proof fn lemma_cli_options_override(c: ConfigView, cli: CliView)
    ensures
        ({
            let m = spec_merge(c, cli);
            &&& (cli.units matches Some(u) ==> m.format.units == u)
            &&& (cli.units is None ==> m.format.units == c.format.units)
            &&& (cli.language matches Some(l) ==> m.format.language == l)
            &&& (cli.language is None ==> m.format.language == c.format.language)
            &&& (cli.output_format matches Some(o) ==> m.format.output_format == o)
            &&& (cli.output_format is None ==> m.format.output_format == c.format.output_format)
            &&& (cli.text_mode matches Some(t) ==> m.format.text_mode == t)
            &&& (cli.city matches Some(x) ==> m.city == Some(x))
            &&& (cli.lat matches Some(x) ==> m.lat == Some(x))
            &&& (cli.lon matches Some(x) ==> m.lon == Some(x))
            &&& (cli.provider matches Some(p) ==> m.providers == seq![p])
            &&& (cli.live_mode_interval matches Some(i) ==> m.live_mode_interval == i)
            &&& (cli.verbose > 0 ==> m.verbose == cli.verbose)
            &&& (cli.use_colors ==> m.format.use_colors)
            &&& (cli.show_city_name ==> m.format.show_city_name)
            &&& (cli.align_right ==> m.format.align_right)
            &&& (cli.use_degrees_for_wind ==> m.format.wind_in_degrees)
            &&& (cli.live_mode ==> m.live_mode)
            &&& (cli.no_cache ==> !m.use_geocoding_cache)
        }),
{
}

/// Laying the same command line over a configuration twice gives what
/// laying it once gives.
pub proof fn lemma_merge_idempotent(c: ConfigView, cli: CliView)
    ensures
        spec_merge(spec_merge(c, cli), cli) =~= spec_merge(c, cli),
{
}

/// A command line with no options leaves the configuration as it was.
pub proof fn lemma_merge_empty_cli(c: ConfigView, cli: CliView)
    requires
        cli.city is None,
        cli.lat is None,
        cli.lon is None,
        cli.provider is None,
        cli.units is None,
        cli.output_format is None,
        cli.language is None,
        !cli.show_city_name,
        !cli.use_colors,
        !cli.use_degrees_for_wind,
        !cli.compact_mode,
        !cli.one_line_mode,
        cli.text_mode is None,
        !cli.align_right,
        !cli.live_mode,
        cli.live_mode_interval is None,
        !cli.no_cache,
        cli.verbose == 0,
    ensures
        spec_merge(c, cli) =~= c,
{
}

/// A configuration file of an earlier layout: API keys and format options
/// at the top level, a single `provider`, a `compact_mode` flag.
#[derive(Debug)]
pub struct LegacyConfig {
    pub provider: Option<Provider>,
    pub providers: Vec<Provider>,
    pub api_keys: Option<ApiKeys>,
    pub api_key: Option<String>,
    pub api_key_owm: String,
    pub api_key_wwo: String,
    pub api_key_wa: String,
    pub city: Option<String>,
    pub lat: Option<Degrees>,
    pub lon: Option<Degrees>,
    pub format: Option<FormatterConfig>,
    pub units: Units,
    pub output_format: OutputFormat,
    pub language: Language,
    pub show_city_name: bool,
    pub use_colors: bool,
    pub wind_in_degrees: bool,
    pub text_mode: TextMode,
    pub compact_mode: Option<bool>,
    pub live_mode: bool,
    pub live_mode_interval: u64,
    pub align_right: bool,
    pub use_geocoding_cache: bool,
    pub verbose: u8,
    pub connect_timeout: u64,
}

impl Default for LegacyConfig {
    fn default() -> (r: LegacyConfig)
        ensures
            r.provider is None,
            r.providers@ == seq![Provider::OpenMeteo],
            r.api_keys is None,
            r.api_key is None,
            r.api_key_owm@.len() == 0,
            r.api_key_wwo@.len() == 0,
            r.api_key_wa@.len() == 0,
            r.city is None,
            r.lat is None,
            r.lon is None,
            r.format is None,
            r.units == Units::Metric,
            r.output_format == OutputFormat::Text,
            r.language == Language::English,
            !r.show_city_name,
            !r.use_colors,
            !r.wind_in_degrees,
            r.text_mode == TextMode::Full,
            r.compact_mode is None,
            !r.live_mode,
            r.live_mode_interval == DEFAULT_LIVE_MODE_INTERVAL,
            !r.align_right,
            !r.use_geocoding_cache,
            r.verbose == 0,
            r.connect_timeout == DEFAULT_CONNECT_TIMEOUT,
    {
        let mut providers = Vec::new();
        providers.push(Provider::OpenMeteo);
        LegacyConfig {
            provider: None,
            providers,
            api_keys: None,
            api_key: None,
            api_key_owm: String::new(),
            api_key_wwo: String::new(),
            api_key_wa: String::new(),
            city: None,
            lat: None,
            lon: None,
            format: None,
            units: Units::Metric,
            output_format: OutputFormat::Text,
            language: Language::English,
            show_city_name: false,
            use_colors: false,
            wind_in_degrees: false,
            text_mode: TextMode::Full,
            compact_mode: None,
            live_mode: false,
            live_mode_interval: DEFAULT_LIVE_MODE_INTERVAL,
            align_right: false,
            use_geocoding_cache: false,
            verbose: 0,
            connect_timeout: DEFAULT_CONNECT_TIMEOUT,
        }
    }
}

/// The provider list of a migrated configuration: a single legacy provider
/// not already listed goes first.
pub open spec fn spec_migrated_providers(provider: Option<Provider>, providers: Seq<Provider>) -> Seq<Provider> {
    match provider {
        Some(p) => if providers.contains(p) { providers } else { seq![p] + providers },
        None => providers,
    }
}

/// The API keys of a migrated configuration: the `api_keys` section when
/// there is one; else the top-level keys, the old generic `api_key` standing
/// in for an empty Open Weather Map key.
pub open spec fn spec_migrated_keys(v: &LegacyConfig) -> ApiKeysView {
    match v.api_keys {
        Some(k) => k.view(),
        None => ApiKeysView {
            open_weather_map: if v.api_key_owm@.len() == 0 && v.api_key is Some {
                v.api_key->0@
            } else {
                v.api_key_owm@
            },
            world_weather_online: v.api_key_wwo@,
            weather_api: v.api_key_wa@,
            weather_bit: Seq::empty(),
            tomorrow_io: Seq::empty(),
            open_uv: Seq::empty(),
        },
    }
}

/// The format settings of a migrated configuration: the `format` section
/// when there is one; else the top-level options, `compact_mode = true`
/// standing for the compact text mode.
pub open spec fn spec_migrated_format(v: &LegacyConfig) -> FormatterConfig {
    match v.format {
        Some(f) => f,
        None => FormatterConfig {
            output_format: v.output_format,
            text_mode: if v.compact_mode == Some(true) { TextMode::Compact } else { v.text_mode },
            use_colors: v.use_colors,
            show_city_name: v.show_city_name,
            align_right: v.align_right,
            wind_in_degrees: v.wind_in_degrees,
            units: v.units,
            language: v.language,
            color_theme: spec_simple_theme(),
        },
    }
}

/// A legacy configuration in the current layout.
pub open spec fn spec_from_legacy(v: &LegacyConfig) -> ConfigView {
    ConfigView {
        providers: spec_migrated_providers(v.provider, v.providers@),
        api_keys: spec_migrated_keys(v),
        city: opt_view(v.city),
        lat: v.lat,
        lon: v.lon,
        format: spec_migrated_format(v),
        live_mode: v.live_mode,
        live_mode_interval: v.live_mode_interval,
        use_geocoding_cache: v.use_geocoding_cache,
        verbose: v.verbose,
        connect_timeout: v.connect_timeout,
    }
}

impl Config {
    /// Moves a configuration of an earlier layout into the current one.
    pub fn from_legacy(value: LegacyConfig) -> (r: Config)
        ensures
            r.view() == spec_from_legacy(&value),
    {
        let ghost v = value;
        let mut providers = value.providers;
        if let Some(provider) = value.provider {
            if !contains_provider(&providers, provider) {
                providers.insert(0, provider);
                assert(providers@ =~= seq![provider] + v.providers@);
            }
        }
        let text_mode = match value.compact_mode {
            Some(true) => TextMode::Compact,
            _ => value.text_mode,
        };
        let api_keys = match value.api_keys {
            Some(api_keys) => api_keys,
            None => {
                let open_weather_map = match value.api_key {
                    Some(api_key) => if value.api_key_owm.as_str().is_empty() { api_key } else { value.api_key_owm },
                    None => value.api_key_owm,
                };
                ApiKeys {
                    open_weather_map,
                    world_weather_online: value.api_key_wwo,
                    weather_api: value.api_key_wa,
                    weather_bit: String::new(),
                    tomorrow_io: String::new(),
                    open_uv: String::new(),
                }
            },
        };
        let format = match value.format {
            Some(format) => format,
            None => FormatterConfig {
                output_format: value.output_format,
                text_mode,
                use_colors: value.use_colors,
                show_city_name: value.show_city_name,
                align_right: value.align_right,
                wind_in_degrees: value.wind_in_degrees,
                units: value.units,
                language: value.language,
                color_theme: ColorTheme::simple(),
            },
        };
        let r = Config {
            providers,
            api_keys,
            city: value.city,
            lat: value.lat,
            lon: value.lon,
            format,
            live_mode: value.live_mode,
            live_mode_interval: value.live_mode_interval,
            use_geocoding_cache: value.use_geocoding_cache,
            verbose: value.verbose,
            connect_timeout: value.connect_timeout,
        };
        assert(r.view() =~= spec_from_legacy(&v));
        r
    }
}

impl From<LegacyConfig> for Config {
    fn from(value: LegacyConfig) -> (r: Config)
        ensures
            r.view() == spec_from_legacy(&value),
    {
        Config::from_legacy(value)
    }
}

impl vstd::std_specs::convert::FromSpecImpl<LegacyConfig> for Config {
    open spec fn obeys_from_spec() -> bool {
        false
    }

    open spec fn from_spec(v: LegacyConfig) -> Config {
        choose|c: Config| c.view() == spec_from_legacy(&v)
    }
}


/// The comment that heads the configuration file.
pub const CONFIG_FILE_HEADER: &'static str = "# Rustormy Configuration File
# This file is in TOML format. See https://toml.io/ for details
#
# Check the documentation for configuration options: https://github.com/Tairesh/rustormy/tree/main?tab=readme-ov-file#configuration
";

/// The text written to the configuration file: the header, an empty line,
/// then the settings.
pub fn config_file_text(settings: &str) -> (r: String)
    ensures
        r@ == CONFIG_FILE_HEADER@ + "\n"@ + settings@,
{
    let mut r = concat2(CONFIG_FILE_HEADER, "\n");
    r.append(settings);
    r
}
} // verus!
