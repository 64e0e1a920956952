use rustormy::config::{ApiKeys, Cli, Config, FailureKind, FormatterConfig, LegacyConfig, LocationSource};
use rustormy::display::icons::ColorTheme;
use rustormy::errors::RustormyError;
use rustormy::models::{Degrees, Language, OutputFormat, Provider, TextMode, Units};

fn deg(x: f64) -> Option<Degrees> {
    Some(Degrees { bits: x.to_bits() })
}

fn with_city(providers: Vec<Provider>, api_keys: ApiKeys) -> Config {
    Config { city: Some("TestCity".to_string()), providers, api_keys, ..Config::default() }
}

// The checks of the current configuration layout.

#[test]
fn file_test_validate_no_location() {
    let config = Config::default();
    let result = config.validate();
    assert!(matches!(result, Err(RustormyError::NoLocationProvided)), "Expected NoLocationProvided error got {:?}", result);
}

#[test]
fn file_test_validate_show_city_name_without_city() {
    let config = Config {
        lat: deg(51.5074),
        lon: deg(-0.1278),
        format: FormatterConfig { show_city_name: true, ..Default::default() },
        ..Default::default()
    };
    let result = config.validate();
    assert!(
        matches!(result, Err(RustormyError::InvalidConfiguration(_))),
        "Expected InvalidConfiguration error got {:?}",
        result
    );
}

#[test]
fn file_test_validate_missing_api_key_owm() {
    let config = with_city(vec![Provider::OpenMeteo, Provider::OpenWeatherMap], ApiKeys::default());
    let result = config.validate();
    assert!(
        matches!(result, Err(RustormyError::MissingApiKey(Provider::OpenWeatherMap))),
        "Expected MissingApiKey error got {:?}",
        result
    );
}

#[test]
fn file_test_validate_missing_api_key_wwo() {
    let config = with_city(vec![Provider::WorldWeatherOnline], ApiKeys::default());
    let result = config.validate();
    assert!(
        matches!(result, Err(RustormyError::MissingApiKey(Provider::WorldWeatherOnline))),
        "Expected MissingApiKey error got {:?}",
        result
    );
}

#[test]
fn test_validate_missing_api_key_wa() {
    let config = with_city(vec![Provider::WeatherApi], ApiKeys::default());
    let result = config.validate();
    assert!(
        matches!(result, Err(RustormyError::MissingApiKey(Provider::WeatherApi))),
        "Expected MissingApiKey error got {:?}",
        result
    );
}

#[test]
fn test_validate_missing_api_key_wb() {
    let config = with_city(vec![Provider::WeatherBit], ApiKeys::default());
    let result = config.validate();
    assert!(
        matches!(result, Err(RustormyError::MissingApiKey(Provider::WeatherBit))),
        "Expected MissingApiKey error got {:?}",
        result
    );
}

#[test]
fn file_test_validate_invalid_coordinates_lat() {
    let config = Config { lat: deg(91.0), lon: deg(0.0), ..Default::default() };
    let result = config.validate();
    assert!(
        matches!(result, Err(RustormyError::InvalidCoordinates { .. })),
        "Expected InvalidCoordinates error got {:?}",
        result
    );
}

#[test]
fn file_test_validate_invalid_coordinates_lon() {
    let config = Config { lat: deg(0.0), lon: deg(181.0), ..Default::default() };
    let result = config.validate();
    assert!(
        matches!(result, Err(RustormyError::InvalidCoordinates { .. })),
        "Expected InvalidCoordinates error got {:?}",
        result
    );
}

#[test]
fn file_test_validate_valid_config_om() {
    let config = with_city(vec![Provider::OpenMeteo], ApiKeys::default());
    let result = config.validate();
    assert!(result.is_ok(), "Expected valid config, got error {:?}", result);
}

#[test]
fn file_test_validate_valid_config_owm() {
    let keys = ApiKeys { open_weather_map: "test_key".to_string(), ..ApiKeys::default() };
    let result = with_city(vec![Provider::OpenWeatherMap], keys).validate();
    assert!(result.is_ok(), "Expected valid config, got error {:?}", result);
}

#[test]
fn file_test_validate_valid_config_wwo() {
    let keys = ApiKeys { world_weather_online: "test_key".to_string(), ..ApiKeys::default() };
    let result = with_city(vec![Provider::WorldWeatherOnline], keys).validate();
    assert!(result.is_ok(), "Expected valid config, got error {:?}", result);
}

#[test]
fn test_validate_valid_config_wa() {
    let keys = ApiKeys { weather_api: "test_key".to_string(), ..ApiKeys::default() };
    let result = with_city(vec![Provider::WeatherApi], keys).validate();
    assert!(result.is_ok(), "Expected valid config, got error {:?}", result);
}

#[test]
fn test_validate_valid_config_wb() {
    let keys = ApiKeys { weather_bit: "test_key".to_string(), ..ApiKeys::default() };
    let result = with_city(vec![Provider::WeatherBit], keys).validate();
    assert!(result.is_ok(), "Expected valid config, got error {:?}", result);
}

#[test]
fn file_test_validate_valid_config_with_all_providers() {
    let keys = ApiKeys {
        open_weather_map: "owm_key".to_string(),
        world_weather_online: "wwo_key".to_string(),
        weather_api: "wa_key".to_string(),
        ..ApiKeys::default()
    };
    let providers =
        vec![Provider::OpenMeteo, Provider::OpenWeatherMap, Provider::WorldWeatherOnline, Provider::WeatherApi];
    let result = with_city(providers, keys).validate();
    assert!(result.is_ok(), "Expected valid config, got error {:?}", result);
}

#[test]
fn test_merge_cli_overrides() {
    let mut config = Config::default();
    config.city = Some("File City".to_string());
    config.lat = deg(10.0);
    config.lon = deg(20.0);
    config.providers = vec![Provider::OpenMeteo];
    config.live_mode = false;
    config.live_mode_interval = 300;
    config.use_geocoding_cache = true;
    config.verbose = 1;
    config.format = FormatterConfig {
        output_format: OutputFormat::Text,
        text_mode: TextMode::Full,
        use_colors: false,
        show_city_name: false,
        align_right: false,
        wind_in_degrees: false,
        units: Units::Metric,
        language: Language::English,
        color_theme: ColorTheme::default(),
    };

    let cli = Cli {
        city: Some("CLI City".to_string()),
        lat: deg(30.0),
        lon: deg(40.0),
        provider: Some(Provider::OpenWeatherMap),
        units: Some(Units::Imperial),
        output_format: Some(OutputFormat::Json),
        language: Some(Language::Spanish),
        show_city_name: true,
        use_colors: true,
        use_degrees_for_wind: true,
        compact_mode: true,
        one_line_mode: false,
        text_mode: None,
        align_right: true,
        live_mode: true,
        live_mode_interval: Some(600),
        no_cache: true,
        verbose: 3,
        clear_cache: false,
    };
    config.merge_cli(cli);
    assert_eq!(config.city(), Some("CLI City"));
    assert_eq!(config.coordinates(), Some((deg(30.0).unwrap(), deg(40.0).unwrap())));
    assert_eq!(config.providers, vec![Provider::OpenWeatherMap]);
    assert_eq!(config.format.units, Units::Imperial);
    assert_eq!(config.format.output_format, OutputFormat::Json);
    assert_eq!(config.format.language, Language::Spanish);
    assert!(config.format.show_city_name);
    assert!(config.format.use_colors);
    assert!(config.format.wind_in_degrees);
    assert_eq!(config.format.text_mode, TextMode::Compact);
    assert!(config.live_mode);
    assert_eq!(config.live_mode_interval, 600);
    assert!(config.format.align_right);
    assert!(!config.use_geocoding_cache);
    assert_eq!(config.verbose, 3);
}

// The same checks as the configuration of an earlier layout ran them, on
// the current layout.

#[test]
fn config_test_migrate_compact_mode_true() {
    let config = Config::from_legacy(LegacyConfig { compact_mode: Some(true), ..Default::default() });
    assert_eq!(config.format().text_mode, TextMode::Compact);
}

#[test]
fn config_test_migrate_compact_mode_false() {
    let config = Config::from_legacy(LegacyConfig { compact_mode: Some(false), ..Default::default() });
    assert_eq!(config.format().text_mode, TextMode::Full);
}

#[test]
fn config_test_migrate_api_key() {
    let config = Config::from_legacy(LegacyConfig { api_key: Some("test_key".to_string()), ..Default::default() });
    assert_eq!(config.api_keys().open_weather_map, "test_key");
    assert_eq!(config.api_keys().world_weather_online, "");
}

#[test]
fn config_test_validate_no_location() {
    let result = Config::default().validate();
    assert!(matches!(result, Err(RustormyError::NoLocationProvided)), "Expected NoLocationProvided error got {:?}", result);
}

#[test]
fn config_test_validate_show_city_name_without_city() {
    let config = Config::from_legacy(LegacyConfig {
        lat: deg(51.5074),
        lon: deg(-0.1278),
        show_city_name: true,
        ..Default::default()
    });
    let result = config.validate();
    assert!(
        matches!(result, Err(RustormyError::InvalidConfiguration(_))),
        "Expected InvalidConfiguration error got {:?}",
        result
    );
}

#[test]
fn config_test_validate_missing_api_key_owm() {
    let config = Config::from_legacy(LegacyConfig {
        providers: vec![Provider::OpenMeteo, Provider::OpenWeatherMap],
        city: Some("TestCity".to_string()),
        ..Default::default()
    });
    let result = config.validate();
    assert!(matches!(result, Err(RustormyError::MissingApiKey(_))), "Expected MissingApiKey error got {:?}", result);
}

#[test]
fn config_test_validate_missing_api_key_wwo() {
    let config = Config::from_legacy(LegacyConfig {
        providers: vec![Provider::WorldWeatherOnline],
        city: Some("TestCity".to_string()),
        ..Default::default()
    });
    let result = config.validate();
    assert!(matches!(result, Err(RustormyError::MissingApiKey(_))), "Expected MissingApiKey error got {:?}", result);
}

#[test]
fn config_test_validate_invalid_coordinates_lat() {
    let config = Config::from_legacy(LegacyConfig { lat: deg(91.0), lon: deg(0.0), ..Default::default() });
    let result = config.validate();
    assert!(
        matches!(result, Err(RustormyError::InvalidCoordinates { .. })),
        "Expected InvalidCoordinates error got {:?}",
        result
    );
}

#[test]
fn config_test_validate_invalid_coordinates_lon() {
    let config = Config::from_legacy(LegacyConfig { lat: deg(0.0), lon: deg(181.0), ..Default::default() });
    let result = config.validate();
    assert!(
        matches!(result, Err(RustormyError::InvalidCoordinates { .. })),
        "Expected InvalidCoordinates error got {:?}",
        result
    );
}

#[test]
fn config_test_validate_valid_config_om() {
    let config = Config::from_legacy(LegacyConfig {
        city: Some("TestCity".to_string()),
        providers: vec![Provider::OpenMeteo],
        ..Default::default()
    });
    let result = config.validate();
    assert!(result.is_ok(), "Expected valid config, got error {:?}", result);
}

#[test]
fn config_test_validate_valid_config_owm() {
    let config = Config::from_legacy(LegacyConfig {
        city: Some("TestCity".to_string()),
        providers: vec![Provider::OpenWeatherMap],
        api_key_owm: "test_key".to_string(),
        ..Default::default()
    });
    let result = config.validate();
    assert!(result.is_ok(), "Expected valid config, got error {:?}", result);
}

#[test]
fn config_test_validate_valid_config_wwo() {
    let config = Config::from_legacy(LegacyConfig {
        city: Some("TestCity".to_string()),
        providers: vec![Provider::WorldWeatherOnline],
        api_key_wwo: "test_key".to_string(),
        ..Default::default()
    });
    let result = config.validate();
    assert!(result.is_ok(), "Expected valid config, got error {:?}", result);
}

#[test]
fn config_test_validate_valid_config_with_old_api_key() {
    let config = Config::from_legacy(LegacyConfig {
        city: Some("TestCity".to_string()),
        providers: vec![Provider::OpenWeatherMap],
        api_key: Some("test_key".to_string()),
        api_key_owm: "".to_string(),
        ..Default::default()
    });
    let result = config.validate();
    assert!(result.is_ok(), "Expected valid config, got error {:?}", result);
}

#[test]
fn config_test_validate_valid_config_with_all_providers() {
    let config = Config::from_legacy(LegacyConfig {
        city: Some("TestCity".to_string()),
        providers: vec![Provider::OpenMeteo, Provider::OpenWeatherMap, Provider::WorldWeatherOnline],
        api_key_owm: "test_key_owm".to_string(),
        api_key_wwo: "test_key_wwo".to_string(),
        ..Default::default()
    });
    let result = config.validate();
    assert!(result.is_ok(), "Expected valid config, got error {:?}", result);
}

#[test]
fn config_test_migrate_provider_to_providers() {
    let config = Config::from_legacy(LegacyConfig {
        provider: Some(Provider::OpenWeatherMap),
        providers: vec![],
        ..Default::default()
    });
    assert_eq!(config.providers(), &vec![Provider::OpenWeatherMap]);
}

// Migration of a legacy configuration.

#[test]
fn legacy_test_migrate_compact_mode_true() {
    let config = Config::from(LegacyConfig { compact_mode: Some(true), ..Default::default() });
    assert_eq!(config.format().text_mode, TextMode::Compact);
}

#[test]
fn legacy_test_migrate_compact_mode_false() {
    let config = Config::from(LegacyConfig { compact_mode: Some(false), ..Default::default() });
    assert_eq!(config.format().text_mode, TextMode::Full);
}

#[test]
fn legacy_test_migrate_api_key() {
    let config = Config::from(LegacyConfig { api_key: Some("test_key".to_string()), ..Default::default() });
    assert_eq!(config.api_keys().open_weather_map, "test_key");
    assert_eq!(config.api_keys().world_weather_online, "");
}

#[test]
fn legacy_test_validate_valid_config_with_old_api_key() {
    let config = Config::from(LegacyConfig {
        city: Some("TestCity".to_string()),
        providers: vec![Provider::OpenWeatherMap],
        api_key: Some("test_key".to_string()),
        api_key_owm: "".to_string(),
        ..Default::default()
    });
    let result = config.validate();
    assert!(result.is_ok(), "Expected valid config, got error {:?}", result);
}

#[test]
fn legacy_test_migrate_provider_to_providers() {
    let config = Config::from(LegacyConfig { provider: Some(Provider::OpenWeatherMap), ..Default::default() });
    assert_eq!(config.providers(), &vec![Provider::OpenWeatherMap, Provider::default()]);
}

#[test]
fn test_legacy_config_api_keys_migration() {
    let legacy_config = LegacyConfig {
        city: Some("Legacy City".to_string()),
        providers: vec![Provider::OpenWeatherMap, Provider::WorldWeatherOnline, Provider::WeatherApi],
        api_key_owm: "owm_key".to_string(),
        api_key_wwo: "wwo_key".to_string(),
        api_key_wa: "wa_key".to_string(),
        ..Default::default()
    };
    let config = Config::from(legacy_config);
    assert_eq!(config.api_keys().open_weather_map, "owm_key");
    assert_eq!(config.api_keys().world_weather_online, "wwo_key");
    assert_eq!(config.api_keys().weather_api, "wa_key");
    let valid = config.validate();
    assert!(valid.is_ok(), "Expected valid config after migration, got {:?}", valid);
}

#[test]
fn test_legacy_config_format_options() {
    let legacy_config = LegacyConfig {
        output_format: OutputFormat::Json,
        text_mode: TextMode::OneLine,
        show_city_name: true,
        use_colors: true,
        wind_in_degrees: true,
        align_right: true,
        ..Default::default()
    };
    let config = Config::from(legacy_config);
    assert_eq!(config.format().output_format, OutputFormat::Json);
    assert_eq!(config.format().text_mode, TextMode::OneLine);
    assert!(config.format().show_city_name);
    assert!(config.format().use_colors);
    assert!(config.format().wind_in_degrees);
    assert!(config.format().align_right);
}

#[test]
fn test_legacy_config_keeps_api_keys() {
    let legacy_config = LegacyConfig {
        api_keys: Some(ApiKeys {
            open_weather_map: "existing_owm_key".to_string(),
            world_weather_online: "existing_wwo_key".to_string(),
            weather_api: "existing_wa_key".to_string(),
            ..Default::default()
        }),
        api_key_owm: "owm_key".to_string(),
        api_key_wwo: "wwo_key".to_string(),
        api_key_wa: "wa_key".to_string(),
        ..Default::default()
    };
    let config = Config::from(legacy_config);
    assert_eq!(config.api_keys().open_weather_map, "existing_owm_key");
    assert_eq!(config.api_keys().world_weather_online, "existing_wwo_key");
    assert_eq!(config.api_keys().weather_api, "existing_wa_key");
}

// Further scenarios.

#[test]
fn providers_fall_back_only_after_api_or_http_failures() {
    let mut config = with_city(vec![Provider::OpenMeteo, Provider::Yr], ApiKeys::default());
    assert_eq!(config.provider(), Some(Provider::OpenMeteo));
    assert_eq!(config.fallback(FailureKind::Other), None);
    assert_eq!(config.fallback(FailureKind::Http), Some(Provider::Yr));
    assert_eq!(config.fallback(FailureKind::Api), None);
}

#[test]
fn zero_intervals_stand_for_the_defaults() {
    let config = Config { live_mode_interval: 0, connect_timeout: 0, ..Config::default() };
    assert_eq!(config.live_mode_interval(), 300);
    assert_eq!(config.connect_timeout(), 10);
}

#[test]
fn coordinates_win_over_the_city() {
    let config = Config { city: Some("Paris".to_string()), lat: deg(1.0), lon: deg(2.0), ..Config::default() };
    assert_eq!(config.location_source(), Ok(LocationSource::Coordinates { lat: deg(1.0).unwrap(), lon: deg(2.0).unwrap() }));
    let config = Config { city: Some("".to_string()), ..Config::default() };
    assert_eq!(config.location_source(), Err(RustormyError::NoLocationProvided));
}

#[test]
fn nan_coordinates_are_invalid() {
    let config = Config { lat: deg(f64::NAN), lon: deg(0.0), ..Config::default() };
    assert!(matches!(config.validate(), Err(RustormyError::InvalidCoordinates { .. })));
    let config = Config { lat: deg(-90.0), lon: deg(180.0), ..Config::default() };
    assert!(config.validate().is_ok());
}

#[test]
fn valid_configurations_have_every_needed_key() {
    let keys = ApiKeys { weather_bit: "k".to_string(), tomorrow_io: "t".to_string(), ..ApiKeys::default() };
    let config = with_city(vec![Provider::Yr, Provider::WeatherBit, Provider::TomorrowIo], keys);
    assert!(config.validate().is_ok());
    for p in config.providers() {
        assert!(config.api_keys().validate(*p).is_ok());
    }
    assert_eq!(ApiKeys::default().validate(Provider::TomorrowIo), Err(RustormyError::MissingApiKey(Provider::TomorrowIo)));
}

#[test]
fn configuration_file_starts_with_the_header() {
    let text = rustormy::config::config_file_text("providers = []\n");
    assert!(text.starts_with(rustormy::config::CONFIG_FILE_HEADER));
    assert!(text.ends_with("\nproviders = []\n"));
}

fn cli() -> Cli {
    Cli {
        city: None,
        lat: None,
        lon: None,
        provider: None,
        units: None,
        output_format: None,
        language: None,
        show_city_name: false,
        use_colors: false,
        use_degrees_for_wind: false,
        compact_mode: false,
        one_line_mode: false,
        text_mode: None,
        align_right: false,
        live_mode: false,
        live_mode_interval: None,
        no_cache: false,
        verbose: 0,
        clear_cache: false,
    }
}

fn config_from(cli: Cli) -> Config {
    let mut config = Config::default();
    config.merge_cli(cli);
    config
}

#[test]
fn test_invalid_coordinates() {
    let config = config_from(Cli { lat: deg(91.0), lon: deg(0.0), ..cli() });
    assert_eq!(
        config.validate(),
        Err(RustormyError::InvalidCoordinates {
            lat: Degrees { bits: 91.0f64.to_bits() },
            lon: Degrees { bits: 0.0f64.to_bits() },
        })
    );
}

#[test]
fn test_no_location_provided() {
    let config = Config::default();
    assert_eq!(config.location_source(), Err(RustormyError::NoLocationProvided));
}

#[test]
fn test_empty_city() {
    let config = config_from(Cli { city: Some(String::new()), ..cli() });
    assert!(config.validate().is_ok());
    assert_eq!(config.location_source(), Err(RustormyError::NoLocationProvided));
}

#[test]
fn fallback_and_set_format_leave_other_settings_alone() {
    let mut config = Config { verbose: 2, live_mode: true, use_geocoding_cache: true, ..with_city(vec![Provider::OpenMeteo, Provider::Yr], ApiKeys::default()) };
    assert_eq!(config.fallback(FailureKind::Api), Some(Provider::OpenMeteo));
    assert_eq!((config.verbose, config.live_mode, config.use_geocoding_cache), (2, true, true));
    config.set_format(FormatterConfig { use_colors: true, ..Default::default() });
    assert_eq!((config.verbose, config.live_mode, config.use_geocoding_cache), (2, true, true));
    assert_eq!(config.providers(), &vec![Provider::Yr]);
    assert!(config.format().use_colors);
}
