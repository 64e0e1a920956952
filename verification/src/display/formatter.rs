use vstd::prelude::*;
use crate::config::{Config, FormatterConfig};
use crate::display::icons::{spec_condition_color, condition_color, Icon};
use crate::models::{AnsiColor, TextMode, Units, WeatherConditionIcon};
use crate::text::{align_left, align_right, concat2, decimal, owned, pad_left, pad_right, spec_decimal};
use crate::translations::{ll, lookup, TRANSLATIONS};

verus! {

/// The weather to report, its measured values already written out as
/// decimal text: temperatures, wind speed and dew point with one decimal
/// place, precipitation as the provider gave it.
#[derive(Debug, Clone)]
pub struct Weather {
    pub temperature: String,
    pub feels_like: String,
    pub humidity: u8,
    pub dew_point: String,
    pub precipitation: String,
    pub pressure: u32,
    pub wind_speed: String,
    pub wind_direction: u16,
    pub uv_index: Option<String>,
    pub is_day: Option<bool>,
    pub description: String,
    pub icon: WeatherConditionIcon,
    pub location_name: String,
}

/// The translation of `key` into `lang`, or `key` itself when the table
/// has none.
pub open spec fn tr(lang: crate::models::Language, key: Seq<char>) -> Seq<char> {
    lookup(TRANSLATIONS@, lang.spec_column(), key)
}

pub open spec fn spec_colored(text: Seq<char>, color: AnsiColor) -> Seq<char> {
    "\x1b["@ + color.spec_code() + "m"@ + text + "\x1b[0m"@
}

/// `text` between the escape sequences that colour it and reset the colour.
pub fn colored_text(text: &str, color: AnsiColor) -> (r: String)
    ensures
        r@ == spec_colored(text@, color),
{
    let mut r = concat2("\x1b[", color.code());
    r.append("m");
    r.append(text);
    r.append("\x1b[0m");
    r
}

/// The width of the label column.
pub const LABEL_WIDTH: usize = 12;

pub open spec fn spec_label(text: Seq<char>, config: FormatterConfig) -> Seq<char> {
    let translated = tr(config.language, text) + ":"@;
    let padded = if config.align_right {
        pad_left(translated, LABEL_WIDTH as int)
    } else {
        pad_right(translated, LABEL_WIDTH as int)
    };
    if config.use_colors {
        spec_colored(padded, config.color_theme.label)
    } else {
        padded
    }
}

/// The translated label followed by a colon, padded to the label column
/// and coloured as the theme says.
pub fn label(text: &'static str, config: &FormatterConfig) -> (r: String)
    ensures
        r@ == spec_label(text@, *config),
{
    let translated = concat2(ll(config.language, text), ":");
    let padded = if config.align_right {
        align_right(translated.as_str(), LABEL_WIDTH)
    } else {
        align_left(translated.as_str(), LABEL_WIDTH)
    };
    if config.use_colors {
        colored_text(padded.as_str(), config.color_theme.label)
    } else {
        padded
    }
}

#[verifier::opaque]
pub open spec fn spec_make_line(
    icon_line: Seq<char>,
    label_text: Seq<char>,
    value: Seq<char>,
    color: AnsiColor,
    config: FormatterConfig,
) -> Seq<char> {
    let v = if config.use_colors { spec_colored(value, color) } else { value };
    if config.text_mode == TextMode::Compact {
        icon_line + " "@ + v
    } else {
        icon_line + " "@ + spec_label(label_text, config) + " "@ + v
    }
}

/// One line of the text report: the icon line, the label unless the mode
/// is compact, and the value, coloured when colours are on.
pub fn make_line(
    icon_line: &str,
    label_text: &'static str,
    value: &str,
    color: AnsiColor,
    config: &FormatterConfig,
) -> (r: String)
    ensures
        r@ == spec_make_line(icon_line@, label_text@, value@, color, *config),
{
    reveal(spec_make_line);
    let v = if config.use_colors { colored_text(value, color) } else { owned(value) };
    let mut r = concat2(icon_line, " ");
    if config.text_mode != TextMode::Compact {
        let l = label(label_text, config);
        r.append(l.as_str());
        r.append(" ");
    }
    r.append(v.as_str());
    r
}

/// Arrows that show where the wind blows to, for winds from the north,
/// north-east, east and so on.
pub const WIND_SYMBOLS: [&'static str; 8] = ["↓", "↙", "←", "↖", "↑", "↗", "→", "↘"];

/// The sector of the compass rose, 45 degrees wide and centred on the
/// eight directions, that holds `deg`.
pub open spec fn wind_sector(deg: u16) -> int {
    ((2 * deg + 45) / 90) % 8
}

/// The arrow of the wind that blows from `deg` degrees.
pub fn wind_deg_to_symbol(deg: u16) -> (r: &'static str)
    ensures
        r@ == WIND_SYMBOLS[wind_sector(deg)]@,
{
    let index = ((2 * (deg as u32) + 45) / 90 % 8) as usize;
    WIND_SYMBOLS[index]
}

pub open spec fn spec_temp_unit(units: Units) -> Seq<char> {
    match units {
        Units::Metric => "°C"@,
        Units::Imperial => "°F"@,
    }
}

pub open spec fn spec_wind_unit_key(units: Units) -> Seq<char> {
    match units {
        Units::Metric => "m/s"@,
        Units::Imperial => "mph"@,
    }
}

pub open spec fn spec_precip_unit_key(units: Units) -> Seq<char> {
    match units {
        Units::Metric => "mm"@,
        Units::Imperial => "inch"@,
    }
}

fn temp_unit(units: Units) -> (r: &'static str)
    ensures
        r@ == spec_temp_unit(units),
{
    match units {
        Units::Metric => "°C",
        Units::Imperial => "°F",
    }
}

fn wind_unit_key(units: Units) -> (r: &'static str)
    ensures
        r@ == spec_wind_unit_key(units),
{
    match units {
        Units::Metric => "m/s",
        Units::Imperial => "mph",
    }
}

fn precip_unit_key(units: Units) -> (r: &'static str)
    ensures
        r@ == spec_precip_unit_key(units),
{
    match units {
        Units::Metric => "mm",
        Units::Imperial => "inch",
    }
}

/// Whether the report draws the day variant of the icons: unless the
/// provider or the sun's position said it is night.
pub open spec fn spec_is_day(w: Weather) -> bool {
    match w.is_day {
        Some(d) => d,
        None => true,
    }
}

pub open spec fn spec_wind_value(c: FormatterConfig, w: Weather) -> Seq<char> {
    let wind_unit = tr(c.language, spec_wind_unit_key(c.units));
    if c.wind_in_degrees {
        w.wind_speed@ + " "@ + wind_unit + " "@ + spec_decimal(w.wind_direction as nat) + "°"@
    } else {
        w.wind_speed@ + " "@ + wind_unit + " "@ + WIND_SYMBOLS[wind_sector(w.wind_direction)]@
    }
}

pub open spec fn spec_condition_value(c: FormatterConfig, w: Weather) -> Seq<char> {
    match w.uv_index {
        Some(uv) => w.description@ + " ("@ + tr(c.language, "UV index"@) + " "@ + uv@ + ")"@,
        None => w.description@,
    }
}

pub open spec fn spec_temperature_value(c: FormatterConfig, w: Weather) -> Seq<char> {
    let unit = spec_temp_unit(c.units);
    w.temperature@ + unit + " ("@ + tr(c.language, "feels like"@) + " "@ + w.feels_like@ + unit + ")"@
}

pub open spec fn spec_precipitation_value(c: FormatterConfig, w: Weather) -> Seq<char> {
    w.precipitation@ + " "@ + tr(c.language, spec_precip_unit_key(c.units))
}

pub open spec fn spec_pressure_value(c: FormatterConfig, w: Weather) -> Seq<char> {
    spec_decimal(w.pressure as nat) + " "@ + tr(c.language, "hPa"@)
}

pub open spec fn spec_humidity_value(c: FormatterConfig, w: Weather) -> Seq<char> {
    spec_decimal(w.humidity as nat) + "% ("@ + tr(c.language, "dew point"@) + " "@ + w.dew_point@
        + spec_temp_unit(c.units) + ")"@
}

pub open spec fn spec_icon_lines(c: FormatterConfig, w: Weather) -> Icon {
    if c.use_colors {
        w.icon.spec_colored_icon(spec_is_day(w))
    } else {
        w.icon.spec_icon(spec_is_day(w))
    }
}

/// The lines of the full or compact text report.
pub open spec fn spec_format_text(c: FormatterConfig, w: Weather) -> Seq<Seq<char>> {
    let icon = spec_icon_lines(c, w);
    let compact = c.text_mode == TextMode::Compact;
    let theme = c.color_theme;
    let head: Seq<Seq<char>> = if c.show_city_name {
        seq![spec_make_line(icon[0]@, "Location"@, w.location_name@, theme.location, c)]
    } else if !compact {
        seq![icon[0]@]
    } else {
        Seq::empty()
    };
    head + seq![
        spec_make_line(icon[1]@, "Condition"@, spec_condition_value(c, w), spec_condition_color(w.icon), c),
        spec_make_line(icon[2]@, "Temperature"@, spec_temperature_value(c, w), theme.temperature, c),
        spec_make_line(icon[3]@, "Wind"@, spec_wind_value(c, w), theme.wind, c),
        spec_make_line(icon[4]@, "Precipitation"@, spec_precipitation_value(c, w), theme.precipitation, c),
        spec_make_line(icon[5]@, "Pressure"@, spec_pressure_value(c, w), theme.pressure, c),
        spec_make_line(icon[6]@, "Humidity"@, spec_humidity_value(c, w), theme.humidity, c),
    ]
}

/// The one-line report: the emoji, the temperature and the wind, after
/// the location name when it is to be shown.
pub open spec fn spec_format_one_line(c: FormatterConfig, w: Weather) -> Seq<char> {
    let theme = c.color_theme;
    let temperature = w.temperature@ + spec_temp_unit(c.units);
    let temperature = if c.use_colors { spec_colored(temperature, theme.temperature) } else { temperature };
    let wind = if c.use_colors { spec_colored(spec_wind_value(c, w), theme.wind) } else { spec_wind_value(c, w) };
    let value = w.icon.spec_emoji(spec_is_day(w)) + " "@ + temperature + " "@ + wind;
    if c.show_city_name {
        let location = if c.use_colors { spec_colored(w.location_name@, theme.location) } else { w.location_name@ };
        location + ": "@ + value
    } else {
        value
    }
}

/// The text report has seven lines, or six in compact mode without the
/// location: compact mode drops the icon's blank top line.
pub proof fn lemma_report_line_count(c: FormatterConfig, w: Weather)
    ensures
        spec_format_text(c, w).len() == if c.show_city_name || c.text_mode != TextMode::Compact { 7int } else { 6int },
{
}

/// The dew point carries the report's temperature unit: the humidity value
/// ends in the same unit as the temperature value, `°F` for imperial units
/// and `°C` for metric ones, and so does the last line of a report drawn
/// without colours.
pub proof fn lemma_dew_point_unit_matches_temperature(c: FormatterConfig, w: Weather)
    ensures
        ({
            let unit_close = if c.units == Units::Imperial { "°F)"@ } else { "°C)"@ };
            let h = spec_humidity_value(c, w);
            let t = spec_temperature_value(c, w);
            let last = spec_format_text(c, w).last();
            &&& h.len() >= 3 && h.subrange(h.len() - 3, h.len() as int) == unit_close
            &&& t.len() >= 3 && t.subrange(t.len() - 3, t.len() as int) == unit_close
            &&& !c.use_colors ==> last.len() >= 3 && last.subrange(last.len() - 3, last.len() as int) == unit_close
        }),
{
    reveal_strlit("°F)");
    reveal_strlit("°C)");
    reveal_strlit("°F");
    reveal_strlit("°C");
    reveal_strlit(")");
    let unit_close = if c.units == Units::Imperial { "°F)"@ } else { "°C)"@ };
    assert(spec_temp_unit(c.units) + ")"@ =~= unit_close);
    let h = spec_humidity_value(c, w);
    let hp = spec_decimal(w.humidity as nat) + "% ("@ + tr(c.language, "dew point"@) + " "@ + w.dew_point@;
    assert(h =~= hp + unit_close);
    assert(h.subrange(h.len() - 3, h.len() as int) =~= unit_close);
    let t = spec_temperature_value(c, w);
    let unit = spec_temp_unit(c.units);
    let tp = w.temperature@ + unit + " ("@ + tr(c.language, "feels like"@) + " "@ + w.feels_like@;
    assert(t =~= tp + unit_close);
    assert(t.subrange(t.len() - 3, t.len() as int) =~= unit_close);
    if !c.use_colors {
        reveal(spec_make_line);
        let icon = spec_icon_lines(c, w);
        let last = spec_format_text(c, w).last();
        let head = if c.text_mode == TextMode::Compact {
            icon[6]@ + " "@
        } else {
            icon[6]@ + " "@ + spec_label("Humidity"@, c) + " "@
        };
        assert(last == spec_make_line(icon[6]@, "Humidity"@, h, c.color_theme.humidity, c));
        assert(last =~= head + h);
        assert(last.subrange(last.len() - 3, last.len() as int) =~= h.subrange(h.len() - 3, h.len() as int));
    }
}

/// The labels of the report lines after the first, in order.
pub open spec fn line_labels() -> Seq<Seq<char>> {
    seq!["Condition"@, "Temperature"@, "Wind"@, "Precipitation"@, "Pressure"@, "Humidity"@]
}

/// Compact mode shows the same information as the full report, without
/// the labels and without the empty top line: each compact line is the
/// full line with the label (and the space after it) taken out.
#[verifier::rlimit(50)]
pub proof fn lemma_compact_drops_labels(c: FormatterConfig, w: Weather)
    requires
        !c.show_city_name,
    ensures
        ({
            let full_c = FormatterConfig { text_mode: TextMode::Full, ..c };
            let compact_c = FormatterConfig { text_mode: TextMode::Compact, ..c };
            let full = spec_format_text(full_c, w);
            let compact = spec_format_text(compact_c, w);
            let icon = spec_icon_lines(c, w);
            &&& full.len() == compact.len() + 1
            &&& full[0] == icon[0]@
            &&& forall|k: int| #![trigger compact[k]] 0 <= k < compact.len() ==> {
                let head = icon[k + 1]@ + " "@;
                &&& compact[k].take(head.len() as int) == head
                &&& full[k + 1] == head + spec_label(line_labels()[k], full_c) + " "@ + compact[k].skip(head.len() as int)
            }
        }),
{
    let full_c = FormatterConfig { text_mode: TextMode::Full, ..c };
    let compact_c = FormatterConfig { text_mode: TextMode::Compact, ..c };
    let full = spec_format_text(full_c, w);
    let compact = spec_format_text(compact_c, w);
    let icon = spec_icon_lines(c, w);
    assert(spec_icon_lines(full_c, w) == icon);
    assert(spec_icon_lines(compact_c, w) == icon);
    let theme = c.color_theme;
    let values = seq![
        spec_condition_value(c, w),
        spec_temperature_value(c, w),
        spec_wind_value(c, w),
        spec_precipitation_value(c, w),
        spec_pressure_value(c, w),
        spec_humidity_value(c, w),
    ];
    let colors = seq![
        spec_condition_color(w.icon),
        theme.temperature,
        theme.wind,
        theme.precipitation,
        theme.pressure,
        theme.humidity,
    ];
    assert(compact =~= Seq::new(6, |k: int| spec_make_line(icon[k + 1]@, line_labels()[k], values[k], colors[k], compact_c)));
    assert(full =~= seq![icon[0]@] + Seq::new(6, |k: int| spec_make_line(icon[k + 1]@, line_labels()[k], values[k], colors[k], full_c)));
    assert forall|k: int| #![trigger compact[k]] 0 <= k < compact.len() implies {
        let head = icon[k + 1]@ + " "@;
        &&& compact[k].take(head.len() as int) == head
        &&& full[k + 1] == head + spec_label(line_labels()[k], full_c) + " "@ + compact[k].skip(head.len() as int)
    } by {
        lemma_line_without_label(icon[k + 1]@, line_labels()[k], values[k], colors[k], c);
    }
}

/// A line of the compact report is the full line without its label.
proof fn lemma_line_without_label(icon_line: Seq<char>, label_text: Seq<char>, value: Seq<char>, color: AnsiColor, c: FormatterConfig)
    ensures
        ({
            let full_c = FormatterConfig { text_mode: TextMode::Full, ..c };
            let compact_c = FormatterConfig { text_mode: TextMode::Compact, ..c };
            let head = icon_line + " "@;
            let compact = spec_make_line(icon_line, label_text, value, color, compact_c);
            &&& compact.take(head.len() as int) == head
            &&& spec_make_line(icon_line, label_text, value, color, full_c)
                == head + spec_label(label_text, full_c) + " "@ + compact.skip(head.len() as int)
        }),
{
    reveal(spec_make_line);
    let compact_c = FormatterConfig { text_mode: TextMode::Compact, ..c };
    let head = icon_line + " "@;
    let v = if c.use_colors { spec_colored(value, color) } else { value };
    let compact = spec_make_line(icon_line, label_text, value, color, compact_c);
    assert(compact == head + v);
    assert(compact.take(head.len() as int) =~= head);
    assert(compact.skip(head.len() as int) =~= v);
}

/// Writes weather reports as text in the configured layout.
pub struct WeatherFormatter {
    pub config: FormatterConfig,
}

/// Views a list of strings as the list of their characters.
pub open spec fn lines_view(v: Seq<String>) -> Seq<Seq<char>> {
    v.map_values(|l: String| l@)
}

/// The lines joined, each followed by a line feed.
pub open spec fn joined_lines(lines: Seq<Seq<char>>) -> Seq<char>
    decreases lines.len(),
{
    if lines.len() == 0 {
        Seq::empty()
    } else {
        joined_lines(lines.drop_last()) + lines.last() + "\n"@
    }
}

/// The text report as the terminal shows it: the one line of the one-line
/// mode, or the lines of the full or compact mode, each ending in a line
/// feed.
pub open spec fn spec_render_text(c: FormatterConfig, w: Weather) -> Seq<char> {
    if c.text_mode == TextMode::OneLine {
        spec_format_one_line(c, w) + "\n"@
    } else {
        joined_lines(spec_format_text(c, w))
    }
}

impl WeatherFormatter {
    /// A formatter for the format settings of `config`.
    pub fn new(config: &Config) -> (r: WeatherFormatter)
        ensures
            r.config == config.format,
    {
        WeatherFormatter { config: config.format }
    }

    /// The text report as one string, as the live screen draws it.
    pub fn render_to_string(&self, w: &Weather) -> (r: String)
        ensures
            r@ == spec_render_text(self.config, *w),
    {
        if self.config.text_mode == TextMode::OneLine {
            let mut r = self.format_one_line(w);
            r.append("\n");
            return r;
        }
        let lines = self.format_text(w);
        let ghost lv = lines_view(lines@);
        let mut r = String::new();
        let mut i: usize = 0;
        while i < lines.len()
            invariant
                0 <= i <= lines@.len(),
                lv == lines_view(lines@),
                lv == spec_format_text(self.config, *w),
                r@ == joined_lines(lv.take(i as int)),
            decreases lines@.len() - i,
        {
            r.append(lines[i].as_str());
            r.append("\n");
            assert(lv.take(i + 1).drop_last() =~= lv.take(i as int));
            assert(lv[i as int] == lines@[i as int]@);
            i += 1;
        }
        assert(lv.take(lines@.len() as int) =~= lv);
        r
    }

    fn condition_value(&self, w: &Weather) -> (r: String)
        ensures
            r@ == spec_condition_value(self.config, *w),
    {
        match &w.uv_index {
            Some(uv) => {
                let mut s = concat2(w.description.as_str(), " (");
                s.append(ll(self.config.language, "UV index"));
                s.append(" ");
                s.append(uv.as_str());
                s.append(")");
                s
            },
            None => owned(w.description.as_str()),
        }
    }

    fn temperature_value(&self, w: &Weather) -> (r: String)
        ensures
            r@ == spec_temperature_value(self.config, *w),
    {
        let unit = temp_unit(self.config.units);
        let mut r = concat2(w.temperature.as_str(), unit);
        r.append(" (");
        r.append(ll(self.config.language, "feels like"));
        r.append(" ");
        r.append(w.feels_like.as_str());
        r.append(unit);
        r.append(")");
        r
    }

    fn precipitation_value(&self, w: &Weather) -> (r: String)
        ensures
            r@ == spec_precipitation_value(self.config, *w),
    {
        let mut r = concat2(w.precipitation.as_str(), " ");
        r.append(ll(self.config.language, precip_unit_key(self.config.units)));
        r
    }

    fn pressure_value(&self, w: &Weather) -> (r: String)
        ensures
            r@ == spec_pressure_value(self.config, *w),
    {
        let mut r = decimal(w.pressure as u64);
        r.append(" ");
        r.append(ll(self.config.language, "hPa"));
        r
    }

    fn humidity_value(&self, w: &Weather) -> (r: String)
        ensures
            r@ == spec_humidity_value(self.config, *w),
    {
        let mut r = decimal(w.humidity as u64);
        r.append("% (");
        r.append(ll(self.config.language, "dew point"));
        r.append(" ");
        r.append(w.dew_point.as_str());
        r.append(temp_unit(self.config.units));
        r.append(")");
        r
    }

    fn wind_value(&self, w: &Weather) -> (r: String)
        ensures
            r@ == spec_wind_value(self.config, *w),
    {
        let wind_unit = ll(self.config.language, wind_unit_key(self.config.units));
        let mut r = concat2(w.wind_speed.as_str(), " ");
        r.append(wind_unit);
        r.append(" ");
        if self.config.wind_in_degrees {
            let d = decimal(w.wind_direction as u64);
            r.append(d.as_str());
            r.append("°");
        } else {
            r.append(wind_deg_to_symbol(w.wind_direction));
        }
        r
    }

    /// The lines of the full or compact text report: an optional location
    /// line (or the icon's top line in full mode), then condition,
    /// temperature, wind, precipitation, pressure and humidity.
    pub fn format_text(&self, w: &Weather) -> (r: Vec<String>)
        ensures
            lines_view(r@) == spec_format_text(self.config, *w),
    {
        let c = &self.config;
        let is_day = match w.is_day {
            Some(d) => d,
            None => true,
        };
        let icon = if c.use_colors { w.icon.colored_icon(is_day) } else { w.icon.icon(is_day) };
        let compact = c.text_mode == TextMode::Compact;
        let theme = c.color_theme;
        let mut out: Vec<String> = Vec::new();
        if c.show_city_name {
            out.push(make_line(icon[0], "Location", w.location_name.as_str(), theme.location, c));
        } else if !compact {
            out.push(owned(icon[0]));
        }
        let condition = self.condition_value(w);
        out.push(make_line(icon[1], "Condition", condition.as_str(), condition_color(w.icon), c));
        let temperature = self.temperature_value(w);
        out.push(make_line(icon[2], "Temperature", temperature.as_str(), theme.temperature, c));
        let wind = self.wind_value(w);
        out.push(make_line(icon[3], "Wind", wind.as_str(), theme.wind, c));
        let precipitation = self.precipitation_value(w);
        out.push(make_line(icon[4], "Precipitation", precipitation.as_str(), theme.precipitation, c));
        let pressure = self.pressure_value(w);
        out.push(make_line(icon[5], "Pressure", pressure.as_str(), theme.pressure, c));
        let humidity = self.humidity_value(w);
        out.push(make_line(icon[6], "Humidity", humidity.as_str(), theme.humidity, c));
        assert(lines_view(out@) =~= spec_format_text(self.config, *w));
        out
    }

    /// The one-line report.
    pub fn format_one_line(&self, w: &Weather) -> (r: String)
        ensures
            r@ == spec_format_one_line(self.config, *w),
    {
        let c = &self.config;
        let theme = c.color_theme;
        let is_day = match w.is_day {
            Some(d) => d,
            None => true,
        };
        let plain_temperature = concat2(w.temperature.as_str(), temp_unit(c.units));
        let temperature = if c.use_colors {
            colored_text(plain_temperature.as_str(), theme.temperature)
        } else {
            plain_temperature
        };
        let plain_wind = self.wind_value(w);
        let wind = if c.use_colors { colored_text(plain_wind.as_str(), theme.wind) } else { plain_wind };
        let mut value = concat2(w.icon.emoji(is_day), " ");
        value.append(temperature.as_str());
        value.append(" ");
        value.append(wind.as_str());
        if c.show_city_name {
            let mut r = if c.use_colors {
                colored_text(w.location_name.as_str(), theme.location)
            } else {
                w.location_name.clone()
            };
            r.append(": ");
            r.append(value.as_str());
            r
        } else {
            value
        }
    }
}

} // verus!
