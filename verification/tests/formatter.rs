use rustormy::config::{Config, FormatterConfig};
use rustormy::display::footer::format_footer;
use rustormy::display::formatter::{wind_deg_to_symbol, Weather, WeatherFormatter};
use rustormy::models::{Language, TextMode, Units, WeatherConditionIcon};
use std::collections::HashMap;

fn sample_weather() -> Weather {
    Weather {
        temperature: format!("{:.1}", 22.49f64),
        feels_like: format!("{:.1}", 21.51f64),
        humidity: 60,
        dew_point: format!("{:.1}", 14.34f64),
        precipitation: format!("{}", 0.5f64),
        pressure: 1013,
        wind_speed: format!("{:.1}", 5.0f64),
        wind_direction: 90,
        uv_index: None,
        is_day: None,
        description: "Partly cloudy".to_string(),
        icon: WeatherConditionIcon::PartlyCloudy,
        location_name: "Test City".to_string(),
    }
}

fn formatter_with(format: FormatterConfig) -> WeatherFormatter {
    let mut config = Config::default();
    config.set_format(format);
    WeatherFormatter::new(&config)
}

#[test]
fn test_format_text_default() {
    let weather = sample_weather();
    let config = Config::default();
    let formatter = WeatherFormatter::new(&config);
    let lines = formatter.format_text(&weather);

    assert_eq!(lines.len(), 7);
    assert_eq!(lines[0], "             ", "Expected empty line at the top, got '{}'", lines[0]);
    assert!(lines[1].contains("Condition"), "Expected 'Condition' in line 1, got '{}'", lines[1]);
    assert!(!lines[1].contains("UV index"), "Did not expect 'UV index' in line 1, got '{}'", lines[1]);
    assert!(lines[1].contains("Partly cloudy"), "Expected 'Partly cloudy' in line 1, got '{}'", lines[1]);
    assert!(lines[2].contains("Temperature"), "Expected 'Temperature' in line 2, got '{}'", lines[2]);
    assert!(lines[2].contains("22.5°C"), "Expected '22.5°C' in line 2, got '{}'", lines[2]);
    assert!(lines[3].contains("Wind"), "Expected 'Wind' in line 3, got '{}'", lines[3]);
    assert!(lines[3].contains("5.0 m/s"), "Expected '5.0 m/s' in line 3, got '{}'", lines[3]);
    assert!(lines[3].contains("←"), "Expected wind direction symbol in line 3, got '{}'", lines[3]);
    assert!(lines[4].contains("Precip"), "Expected 'Precip' in line 4, got '{}'", lines[4]);
    assert!(lines[4].contains("0.5 mm"), "Expected '0.5 mm' in line 4, got '{}'", lines[4]);
    assert!(lines[5].contains("Pressure"), "Expected 'Pressure' in line 5, got '{}'", lines[5]);
    assert!(lines[5].contains("1013 hPa"), "Expected '1013 hPa' in line 5, got '{}'", lines[5]);
    assert!(lines[6].contains("Humidity"), "Expected 'Humidity' in line 6, got '{}'", lines[6]);
    assert!(lines[6].contains("60%"), "Expected '60%' in line 6, got '{}'", lines[6]);
    assert!(lines[6].contains("dew point"), "Expected 'dew point' in line 6, got '{}'", lines[6]);
    assert!(lines[6].contains("14.3°C"), "Expected '14.3°C' in line 6, got '{}'", lines[6]);
}

#[test]
fn test_format_text_compact() {
    let weather = sample_weather();
    let formatter = formatter_with(FormatterConfig { text_mode: TextMode::Compact, ..Default::default() });
    let lines = formatter.format_text(&weather);

    assert_eq!(lines.len(), 6);
    assert!(!lines[0].contains("Location"), "Expected no 'Location' in line 0, got '{}'", lines[0]);
    assert!(!lines[0].contains("Test City"), "Expected no 'Test City' in line 0, got '{}'", lines[0]);
    assert!(!lines[0].contains("Condition"), "Expected no 'Condition' label in compact mode, got '{}'", lines[0]);
    assert!(lines[0].contains("Partly cloudy"), "Expected 'Partly cloudy' in line 0, got '{}'", lines[0]);
    assert!(!lines[1].contains("Temperature"), "Expected no 'Temperature' label in compact mode, got '{}'", lines[1]);
    assert!(lines[1].contains("22.5°C"), "Expected '22.5°C' in line 1, got '{}'", lines[1]);
    assert!(!lines[2].contains("Wind"), "Expected no 'Wind' label in compact mode, got '{}'", lines[2]);
    assert!(lines[2].contains("5.0 m/s"), "Expected '5.0 m/s' in line 2, got '{}'", lines[2]);
    assert!(lines[2].contains("←"), "Expected wind direction symbol in line 2, got '{}'", lines[2]);
    assert!(!lines[3].contains("Precip"), "Expected no 'Precip' label in compact mode, got '{}'", lines[3]);
    assert!(lines[3].contains("0.5 mm"), "Expected '0.5 mm' in line 3, got '{}'", lines[3]);
    assert!(!lines[4].contains("Pressure"), "Expected no 'Pressure' label in compact mode, got '{}'", lines[4]);
    assert!(lines[4].contains("1013 hPa"), "Expected '1013 hPa' in line 4, got '{}'", lines[4]);
    assert!(!lines[5].contains("Humidity"), "Expected no 'Humidity' label in compact mode, got '{}'", lines[5]);
    assert!(lines[5].contains("60%"), "Expected '60%' in line 5, got '{}'", lines[5]);
    assert!(lines[5].contains("dew point"), "Expected 'dew point' in line 5, got '{}'", lines[5]);
    assert!(lines[5].contains("14.3°C"), "Expected '14.3°C' in line 6, got '{}'", lines[5]);
}

#[test]
fn test_uv_index() {
    let mut weather = sample_weather();
    weather.uv_index = Some(format!("{}", 7u8));
    let config = Config::default();
    let formatter = WeatherFormatter::new(&config);
    let lines = formatter.format_text(&weather);

    assert_eq!(lines.len(), 7);
    assert!(lines[1].contains("UV index 7"), "Expected 'UV index 7' in condition line, got '{}'", lines[1]);
}

#[test]
fn test_format_text_with_city_name() {
    let weather = sample_weather();
    let formatter = formatter_with(FormatterConfig { show_city_name: true, ..Default::default() });
    let lines = formatter.format_text(&weather);

    assert_eq!(lines.len(), 7);
    assert!(lines[0].contains("Location"), "Expected 'Location' in line 0, got '{}'", lines[0]);
    assert!(lines[0].contains("Test City"), "Expected 'Test City' in line 0, got '{}'", lines[0]);
}

#[test]
fn test_format_text_with_color() {
    let weather = sample_weather();
    let formatter = formatter_with(FormatterConfig { use_colors: true, ..Default::default() });
    let lines = formatter.format_text(&weather);

    assert_eq!(lines.len(), 7);
    for line in &lines[1..6] {
        assert!(line.contains("\x1b["), "Expected ANSI color codes in line, got '{}'", line);
    }
}

#[test]
fn test_format_text_imperial_units() {
    let weather = sample_weather();
    let formatter = formatter_with(FormatterConfig { units: Units::Imperial, ..Default::default() });
    let lines = formatter.format_text(&weather);

    assert_eq!(lines.len(), 7);
    assert!(lines[2].contains("°F"), "Expected '°F' in temperature line, got '{}'", lines[2]);
    assert!(lines[3].contains("mph"), "Expected 'mph' in wind line, got '{}'", lines[3]);
    assert!(lines[4].contains("inch"), "Expected 'inch' in precipitation line, got '{}'", lines[4]);
}

#[test]
fn test_format_text_wind_degrees() {
    let weather = sample_weather();
    let formatter = formatter_with(FormatterConfig { wind_in_degrees: true, ..Default::default() });
    let lines = formatter.format_text(&weather);

    assert_eq!(lines.len(), 7);
    assert!(lines[3].contains("90°"), "Expected '90°' in wind line, got '{}'", lines[3]);
    assert!(!lines[3].contains("→"), "Did not expect wind direction symbol in wind line, got '{}'", lines[3]);
}

#[test]
fn test_format_text_wind_degrees_symbol() {
    let test_cases: HashMap<u16, char> = HashMap::from([
        (0, '↓'),
        (45, '↙'),
        (90, '←'),
        (135, '↖'),
        (180, '↑'),
        (225, '↗'),
        (270, '→'),
        (315, '↘'),
    ]);

    for (got, want) in test_cases.into_iter() {
        let mut weather = sample_weather();
        weather.wind_direction = got;
        let formatter = formatter_with(FormatterConfig { wind_in_degrees: false, ..Default::default() });
        let lines = formatter.format_text(&weather);

        assert_eq!(lines.len(), 7);
        assert!(lines[3].contains(want), "Expected '{}' in wind line, got '{}'", want, lines[3]);
        assert!(!lines[3].contains("90°"), "Did not expect wind direction symbol in wind line, got '{}'", lines[3]);
    }
}

#[test]
fn test_format_text_different_language() {
    let weather = sample_weather();
    let formatter = formatter_with(FormatterConfig { language: Language::Russian, ..Default::default() });
    let lines = formatter.format_text(&weather);

    assert_eq!(lines.len(), 7);
    assert!(lines[1].contains("Погода"), "Expected 'Погода' in condition line, got '{}'", lines[1]);
}

#[test]
fn test_one_line_mode_with_city_name() {
    let weather = sample_weather();
    let formatter =
        formatter_with(FormatterConfig { show_city_name: true, text_mode: TextMode::OneLine, ..Default::default() });
    let line = formatter.format_one_line(&weather);

    assert!(line.contains("Test City"), "Expected 'Test City' in one-line output, got '{}'", line);
    assert!(line.contains("⛅"), "Expected weather icon in one-line output, got '{}'", line);
    assert!(line.contains("22.5°C"), "Expected temperature in one-line output, got '{}'", line);
    assert!(line.contains("5.0 m/s ←"), "Expected wind info in one-line output, got '{}'", line);
}

#[test]
fn test_one_line_mode_without_city_name() {
    let weather = sample_weather();
    let formatter = formatter_with(FormatterConfig { text_mode: TextMode::OneLine, ..Default::default() });
    let line = formatter.format_one_line(&weather);

    assert!(!line.contains("Test City"), "Did not expect 'Test City' in one-line output, got '{}'", line);
    assert!(line.contains("⛅"), "Expected weather icon in one-line output, got '{}'", line);
    assert!(line.contains("22.5°C"), "Expected temperature in one-line output, got '{}'", line);
}

#[test]
fn test_align_right() {
    let weather = sample_weather();
    let formatter = formatter_with(FormatterConfig { align_right: true, ..Default::default() });
    let lines = formatter.format_text(&weather);

    assert!(lines[1].contains("Condition: Partly cloudy"), "Expected 'Condition: Partly cloudy' in line 1, got '{}'", lines[1]);
    assert!(lines[2].contains("Temperature: 22.5°C"), "Expected 'Temperature: 22.5°C' in line 2, got '{}'", lines[2]);
    assert!(lines[3].contains("Wind: 5.0 m/s ←"), "Expected 'Wind: 5.0 m/s →' in line 3, got '{}'", lines[3]);
}

#[test]
fn test_uv_index_display() {
    let mut weather = sample_weather();
    weather.uv_index = Some(format!("{}", 5u8));
    let config = Config::default();
    let formatter = WeatherFormatter::new(&config);
    let lines = formatter.format_text(&weather);

    assert_eq!(lines.len(), 7);
    assert!(lines[1].contains("UV index 5"), "Expected 'UV index 5' in condition line, got '{}'", lines[1]);
}

#[test]
fn test_format_footer_no_color() {
    let footer = format_footer(14, 32, 5, false);
    assert_eq!(footer, "[q] quit  [r] refresh  •  last update: 14:32:05");
}

#[test]
fn test_format_footer_with_color_contains_ansi_escape() {
    let footer = format_footer(14, 32, 5, true);
    assert!(footer.contains("14:32:05"));
    assert!(footer.contains("\x1b["), "expected ANSI escape in colored footer");
}

#[test]
fn wind_sectors_turn_every_45_degrees() {
    assert_eq!(wind_deg_to_symbol(22), "↓");
    assert_eq!(wind_deg_to_symbol(23), "↙");
    assert_eq!(wind_deg_to_symbol(337), "↘");
    assert_eq!(wind_deg_to_symbol(338), "↓");
    assert_eq!(wind_deg_to_symbol(359), "↓");
}

#[test]
fn full_report_line_layout() {
    let weather = sample_weather();
    let config = Config::default();
    let formatter = WeatherFormatter::new(&config);
    let lines = formatter.format_text(&weather);
    assert_eq!(lines[5], format!("{} Pressure:    1013 hPa", WeatherConditionIcon::PartlyCloudy.icon(true)[5]));
    let text = formatter.render_to_string(&weather);
    assert_eq!(text, lines.join("\n") + "\n");
}

#[test]
fn compact_lines_are_full_lines_without_labels() {
    let weather = sample_weather();
    let full = formatter_with(FormatterConfig { text_mode: TextMode::Full, ..Default::default() }).format_text(&weather);
    let compact =
        formatter_with(FormatterConfig { text_mode: TextMode::Compact, ..Default::default() }).format_text(&weather);
    assert_eq!(full.len(), compact.len() + 1);
    let labels = ["Condition:   ", "Temperature: ", "Wind:        ", "Precip:      ", "Pressure:    ", "Humidity:    "];
    for (k, label) in labels.iter().enumerate() {
        assert_eq!(full[k + 1].replacen(label, "", 1), compact[k], "line {k}");
    }
}
