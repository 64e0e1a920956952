use vstd::prelude::*;
use crate::models::{AnsiColor, WeatherConditionIcon};

verus! {

/// The seven lines of a weather icon; each is 13 cells wide on a terminal.
pub type Icon = [&'static str; 7];

pub const ICON_UNKNOWN: Icon = [
    "             ",
    "    .-.      ",
    "     __)     ",
    "    (        ",
    "     `-’     ",
    "      •      ",
    "             ",
];

pub const ICON_CLEAR_DAY: Icon = [
    "             ",
    "    \\   /    ",
    "     .-.     ",
    "  ― (   ) ―  ",
    "     `-’     ",
    "    /   \\    ",
    "             ",
];

pub const ICON_CLEAR_NIGHT: Icon = [
    "     .  *    ",
    "      .-.    ",
    "   . ( (  *  ",
    "      `-’    ",
    "   *   .     ",
    "             ",
    "             ",
];

pub const ICON_PARTLY_CLOUDY_DAY: Icon = [
    "             ",
    "   \\  /      ",
    " _ /\"\".-.    ",
    "   \\_(   ).  ",
    "   /(___(__) ",
    "             ",
    "             ",
];

pub const ICON_PARTLY_CLOUDY_NIGHT: Icon = [
    "             ",
    "     . *     ",
    "   _ .-.     ",
    "    (   ).   ",
    "   *(___(__) ",
    "             ",
    "             ",
];

pub const ICON_CLOUDY: Icon = [
    "             ",
    "             ",
    "     .--.    ",
    "  .-(    ).  ",
    " (___.__)__) ",
    "             ",
    "             ",
];

pub const ICON_LIGHT_SHOWERS_DAY: Icon = [
    "             ",
    " _`/\"\".-.    ",
    "  ,\\_(   ).  ",
    "   /(___(__) ",
    "     ' ' ' ' ",
    "    ' ' ' '  ",
    "             ",
];

pub const ICON_LIGHT_SHOWERS_NIGHT: Icon = [
    "     . *     ",
    "   * .-.     ",
    "    (   ).   ",
    "   *(___(__) ",
    "     ' ' ' ' ",
    "    ' ' ' '  ",
    "             ",
];

pub const ICON_HEAVY_SHOWERS_DAY: Icon = [
    "             ",
    " _`/\"\".-.    ",
    "  ,\\_(   ).  ",
    "   /(___(__) ",
    "   ‚'‚'‚'‚'  ",
    "   ‚'‚'‚'‚'  ",
    "             ",
];

pub const ICON_HEAVY_SHOWERS_NIGHT: Icon = [
    "     . *     ",
    "   * .-.     ",
    "    (   ).   ",
    "   *(___(__) ",
    "   ‚'‚'‚'‚'  ",
    "   ‚'‚'‚'‚'  ",
    "             ",
];

pub const ICON_LIGHT_SNOW: Icon = [
    "             ",
    "     .-.     ",
    "    (   ).   ",
    "   (___(__)  ",
    "    *  *  *  ",
    "   *  *  *   ",
    "             ",
];

pub const ICON_HEAVY_SNOW: Icon = [
    "             ",
    "     .-.     ",
    "    (   ).   ",
    "   (___(__)  ",
    "   * * * *   ",
    "  * * * *    ",
    "             ",
];

pub const ICON_THUNDERSTORM: Icon = [
    "             ",
    "     .-.     ",
    "    (   ).   ",
    "   (___(__)  ",
    "   ⚡\"\"⚡\"\"  ",
    "  ‚'‚'‚'‚'   ",
    "             ",
];

pub const ICON_FOG: Icon = [
    "             ",
    "             ",
    " _ - _ - _ - ",
    "  _ - _ - _  ",
    " _ - _ - _ - ",
    "             ",
    "             ",
];

pub const COLORED_ICON_UNKNOWN: Icon = [
    "             ",
    "    .-.      ",
    "     __)     ",
    "    (        ",
    "     `-’     ",
    "      •      ",
    "             ",
];

pub const COLORED_ICON_CLEAR_DAY: Icon = [
    "             ",
    "\x1b[38;5;226m    \\   /    \x1b[0m",
    "\x1b[38;5;226m     .-.     \x1b[0m",
    "\x1b[38;5;226m  ― (   ) ―  \x1b[0m",
    "\x1b[38;5;226m     `-’     \x1b[0m",
    "\x1b[38;5;226m    /   \\    \x1b[0m",
    "             ",
];

pub const COLORED_ICON_CLEAR_NIGHT: Icon = [
    "\x1b[38;5;111;1m     .  *    \x1b[0m",
    "\x1b[38;5;230;1m      .-.    \x1b[0m",
    "\x1b[38;5;111;1m   . \x1b[38;5;230;1m( (\x1b[38;5;111;1m  *  \x1b[0m",
    "\x1b[38;5;230;1m      `-’    \x1b[0m",
    "\x1b[38;5;111;1m   *   .     \x1b[0m",
    "             ",
    "             ",
];

pub const COLORED_ICON_PARTLY_CLOUDY_DAY: Icon = [
    "             ",
    "\x1b[38;5;226m   \\  /\x1b[0m      ",
    "\x1b[38;5;226m _ /\"\"\x1b[38;5;250m.-.    \x1b[0m",
    "\x1b[38;5;226m   \\_\x1b[38;5;250m(   ).  \x1b[0m",
    "\x1b[38;5;226m   /\x1b[38;5;250m(___(__) \x1b[0m",
    "             ",
    "             ",
];

pub const COLORED_ICON_PARTLY_CLOUDY_NIGHT: Icon = [
    "             ",
    "\x1b[38;5;111;1m     . *     \x1b[0m",
    "\x1b[38;5;230;1m     \x1b[38;5;250m.-.     \x1b[0m",
    "\x1b[38;5;250m    (   ).   \x1b[0m",
    "\x1b[38;5;111;1m   *\x1b[38;5;250m(___(__) \x1b[0m",
    "             ",
    "             ",
];

pub const COLORED_ICON_CLOUDY: Icon = [
    "             ",
    "             ",
    "\x1b[38;5;250m     .--.    \x1b[0m",
    "\x1b[38;5;250m  .-(    ).  \x1b[0m",
    "\x1b[38;5;250m (___.__)__) \x1b[0m",
    "             ",
    "             ",
];

pub const COLORED_ICON_LIGHT_SHOWERS_DAY: Icon = [
    "             ",
    "\x1b[38;5;226m _`/\"\"\x1b[38;5;250m.-.    \x1b[0m",
    "\x1b[38;5;226m  ,\\_\x1b[38;5;250m(   ).  \x1b[0m",
    "\x1b[38;5;226m   /\x1b[38;5;250m(___(__) \x1b[0m",
    "\x1b[38;5;111m     ' ' ' ' \x1b[0m",
    "\x1b[38;5;111m    ' ' ' '  \x1b[0m",
    "             ",
];

pub const COLORED_ICON_LIGHT_SHOWERS_NIGHT: Icon = [
    "\x1b[38;5;111;1m     . *     \x1b[0m",
    "\x1b[38;5;111;1m   *\x1b[38;5;250m .-.     \x1b[0m",
    "\x1b[38;5;250m    (   ).   \x1b[0m",
    "\x1b[38;5;111;1m   *\x1b[38;5;250m(___(__) \x1b[0m",
    "\x1b[38;5;111m     ' ' ' ' \x1b[0m",
    "\x1b[38;5;111m    ' ' ' '  \x1b[0m",
    "             ",
];

pub const COLORED_ICON_HEAVY_SHOWERS_DAY: Icon = [
    "             ",
    "\x1b[38;5;226m _`/\"\"\x1b[38;5;240;1m.-.    \x1b[0m",
    "\x1b[38;5;226m  ,\\_\x1b[38;5;240;1m(   ).  \x1b[0m",
    "\x1b[38;5;226m   /\x1b[38;5;240;1m(___(__) \x1b[0m",
    "\x1b[38;5;21;1m   ‚'‚'‚'‚'  \x1b[0m",
    "\x1b[38;5;21;1m   ‚'‚'‚'‚'  \x1b[0m",
    "             ",
];

pub const COLORED_ICON_HEAVY_SHOWERS_NIGHT: Icon = [
    "\x1b[38;5;111;1m     . *     \x1b[0m",
    "\x1b[38;5;111;1m   *\x1b[38;5;240;1m .-.     \x1b[0m",
    "\x1b[38;5;240;1m    (   ).   \x1b[0m",
    "\x1b[38;5;111;1m   *\x1b[38;5;240;1m(___(__) \x1b[0m",
    "\x1b[38;5;21;1m   ‚'‚'‚'‚'  \x1b[0m",
    "\x1b[38;5;21;1m   ‚'‚'‚'‚'  \x1b[0m",
    "             ",
];

pub const COLORED_ICON_LIGHT_SNOW: Icon = [
    "             ",
    "\x1b[38;5;250m     .-.     \x1b[0m",
    "\x1b[38;5;250m    (   ).   \x1b[0m",
    "\x1b[38;5;250m   (___(__)  \x1b[0m",
    "\x1b[38;5;255m    *  *  *  \x1b[0m",
    "\x1b[38;5;255m   *  *  *   \x1b[0m",
    "             ",
];

pub const COLORED_ICON_HEAVY_SNOW: Icon = [
    "             ",
    "\x1b[38;5;240;1m     .-.     \x1b[0m",
    "\x1b[38;5;240;1m    (   ).   \x1b[0m",
    "\x1b[38;5;240;1m   (___(__)  \x1b[0m",
    "\x1b[38;5;255;1m   * * * *   \x1b[0m",
    "\x1b[38;5;255;1m  * * * *    \x1b[0m",
    "             ",
];

pub const COLORED_ICON_THUNDERSTORM: Icon = [
    "             ",
    "\x1b[38;5;240;1m     .-.     \x1b[0m",
    "\x1b[38;5;240;1m    (   ).   \x1b[0m",
    "\x1b[38;5;240;1m   (___(__)  \x1b[0m",
    "\x1b[38;5;228;5m   ⚡\x1b[38;5;111;25m\"\"\x1b[38;5;228;5m⚡\x1b[38;5;111;25m\"\"  \x1b[0m",
    "\x1b[38;5;21;1m  ‚'‚'‚'‚'   \x1b[0m",
    "             ",
];

pub const COLORED_ICON_FOG: Icon = [
    "             ",
    "             ",
    "\x1b[38;5;251m _ - _ - _ - \x1b[0m",
    "\x1b[38;5;251m  _ - _ - _  \x1b[0m",
    "\x1b[38;5;251m _ - _ - _ - \x1b[0m",
    "             ",
    "             ",
];

impl WeatherConditionIcon {
    pub open spec fn spec_icon(self, is_day: bool) -> Icon {
        match self {
            WeatherConditionIcon::Unknown => ICON_UNKNOWN,
            WeatherConditionIcon::Clear => if is_day { ICON_CLEAR_DAY } else { ICON_CLEAR_NIGHT },
            WeatherConditionIcon::PartlyCloudy => if is_day { ICON_PARTLY_CLOUDY_DAY } else { ICON_PARTLY_CLOUDY_NIGHT },
            WeatherConditionIcon::Cloudy => ICON_CLOUDY,
            WeatherConditionIcon::LightShowers => if is_day { ICON_LIGHT_SHOWERS_DAY } else { ICON_LIGHT_SHOWERS_NIGHT },
            WeatherConditionIcon::HeavyShowers => if is_day { ICON_HEAVY_SHOWERS_DAY } else { ICON_HEAVY_SHOWERS_NIGHT },
            WeatherConditionIcon::LightSnow => ICON_LIGHT_SNOW,
            WeatherConditionIcon::HeavySnow => ICON_HEAVY_SNOW,
            WeatherConditionIcon::Thunderstorm => ICON_THUNDERSTORM,
            WeatherConditionIcon::Fog => ICON_FOG,
        }
    }

    /// The plain icon of the condition; clear sky, partly cloudy sky and
    /// showers have a night variant.
    pub fn icon(self, is_day: bool) -> (r: Icon)
        ensures
            r == self.spec_icon(is_day),
    {
        match self {
            WeatherConditionIcon::Unknown => ICON_UNKNOWN,
            WeatherConditionIcon::Clear => if is_day { ICON_CLEAR_DAY } else { ICON_CLEAR_NIGHT },
            WeatherConditionIcon::PartlyCloudy => if is_day { ICON_PARTLY_CLOUDY_DAY } else { ICON_PARTLY_CLOUDY_NIGHT },
            WeatherConditionIcon::Cloudy => ICON_CLOUDY,
            WeatherConditionIcon::LightShowers => if is_day { ICON_LIGHT_SHOWERS_DAY } else { ICON_LIGHT_SHOWERS_NIGHT },
            WeatherConditionIcon::HeavyShowers => if is_day { ICON_HEAVY_SHOWERS_DAY } else { ICON_HEAVY_SHOWERS_NIGHT },
            WeatherConditionIcon::LightSnow => ICON_LIGHT_SNOW,
            WeatherConditionIcon::HeavySnow => ICON_HEAVY_SNOW,
            WeatherConditionIcon::Thunderstorm => ICON_THUNDERSTORM,
            WeatherConditionIcon::Fog => ICON_FOG,
        }
    }

    pub open spec fn spec_colored_icon(self, is_day: bool) -> Icon {
        match self {
            WeatherConditionIcon::Unknown => COLORED_ICON_UNKNOWN,
            WeatherConditionIcon::Clear => if is_day { COLORED_ICON_CLEAR_DAY } else { COLORED_ICON_CLEAR_NIGHT },
            WeatherConditionIcon::PartlyCloudy => if is_day { COLORED_ICON_PARTLY_CLOUDY_DAY } else { COLORED_ICON_PARTLY_CLOUDY_NIGHT },
            WeatherConditionIcon::Cloudy => COLORED_ICON_CLOUDY,
            WeatherConditionIcon::LightShowers => if is_day { COLORED_ICON_LIGHT_SHOWERS_DAY } else { COLORED_ICON_LIGHT_SHOWERS_NIGHT },
            WeatherConditionIcon::HeavyShowers => if is_day { COLORED_ICON_HEAVY_SHOWERS_DAY } else { COLORED_ICON_HEAVY_SHOWERS_NIGHT },
            WeatherConditionIcon::LightSnow => COLORED_ICON_LIGHT_SNOW,
            WeatherConditionIcon::HeavySnow => COLORED_ICON_HEAVY_SNOW,
            WeatherConditionIcon::Thunderstorm => COLORED_ICON_THUNDERSTORM,
            WeatherConditionIcon::Fog => COLORED_ICON_FOG,
        }
    }

    /// The icon of the condition with ANSI colours.
    pub fn colored_icon(self, is_day: bool) -> (r: Icon)
        ensures
            r == self.spec_colored_icon(is_day),
    {
        match self {
            WeatherConditionIcon::Unknown => COLORED_ICON_UNKNOWN,
            WeatherConditionIcon::Clear => if is_day { COLORED_ICON_CLEAR_DAY } else { COLORED_ICON_CLEAR_NIGHT },
            WeatherConditionIcon::PartlyCloudy => if is_day { COLORED_ICON_PARTLY_CLOUDY_DAY } else { COLORED_ICON_PARTLY_CLOUDY_NIGHT },
            WeatherConditionIcon::Cloudy => COLORED_ICON_CLOUDY,
            WeatherConditionIcon::LightShowers => if is_day { COLORED_ICON_LIGHT_SHOWERS_DAY } else { COLORED_ICON_LIGHT_SHOWERS_NIGHT },
            WeatherConditionIcon::HeavyShowers => if is_day { COLORED_ICON_HEAVY_SHOWERS_DAY } else { COLORED_ICON_HEAVY_SHOWERS_NIGHT },
            WeatherConditionIcon::LightSnow => COLORED_ICON_LIGHT_SNOW,
            WeatherConditionIcon::HeavySnow => COLORED_ICON_HEAVY_SNOW,
            WeatherConditionIcon::Thunderstorm => COLORED_ICON_THUNDERSTORM,
            WeatherConditionIcon::Fog => COLORED_ICON_FOG,
        }
    }

    pub open spec fn spec_emoji(self, is_day: bool) -> Seq<char> {
        match self {
            WeatherConditionIcon::Unknown => "❓"@,
            WeatherConditionIcon::Clear => if is_day { "☀️ "@ } else { "🌙"@ },
            WeatherConditionIcon::PartlyCloudy => if is_day { "⛅️"@ } else { "☁️ "@ },
            WeatherConditionIcon::Cloudy => "☁️ "@,
            WeatherConditionIcon::LightShowers => if is_day { "🌦️ "@ } else { "🌧️ "@ },
            WeatherConditionIcon::HeavyShowers => "🌧️ "@,
            WeatherConditionIcon::LightSnow => "🌨️ "@,
            WeatherConditionIcon::HeavySnow => "❄️ "@,
            WeatherConditionIcon::Thunderstorm => "⛈️ "@,
            WeatherConditionIcon::Fog => "🌫 "@,
        }
    }

    /// The emoji of the condition, as the one-line report shows it.
    pub fn emoji(self, is_day: bool) -> (r: &'static str)
        ensures
            r@ == self.spec_emoji(is_day),
    {
        match self {
            WeatherConditionIcon::Unknown => "❓",
            WeatherConditionIcon::Clear => if is_day { "☀️ " } else { "🌙" },
            WeatherConditionIcon::PartlyCloudy => if is_day { "⛅️" } else { "☁️ " },
            WeatherConditionIcon::Cloudy => "☁️ ",
            WeatherConditionIcon::LightShowers => if is_day { "🌦️ " } else { "🌧️ " },
            WeatherConditionIcon::HeavyShowers => "🌧️ ",
            WeatherConditionIcon::LightSnow => "🌨️ ",
            WeatherConditionIcon::HeavySnow => "❄️ ",
            WeatherConditionIcon::Thunderstorm => "⛈️ ",
            WeatherConditionIcon::Fog => "🌫 ",
        }
    }
}

/// Only clear and partly cloudy skies and showers are drawn differently
/// by night; every other condition ignores the time of day.
pub proof fn lemma_icons_ignore_time_of_day(v: WeatherConditionIcon)
    requires
        v != WeatherConditionIcon::Clear,
        v != WeatherConditionIcon::PartlyCloudy,
        v != WeatherConditionIcon::LightShowers,
        v != WeatherConditionIcon::HeavyShowers,
    ensures
        v.spec_icon(true) == v.spec_icon(false),
        v.spec_colored_icon(true) == v.spec_colored_icon(false),
        v.spec_emoji(true) == v.spec_emoji(false),
{
}

pub open spec fn spec_condition_color(icon: WeatherConditionIcon) -> AnsiColor {
    match icon {
        WeatherConditionIcon::Unknown | WeatherConditionIcon::Fog | WeatherConditionIcon::Cloudy => AnsiColor::White,
        WeatherConditionIcon::Clear => AnsiColor::BrightYellow,
        WeatherConditionIcon::PartlyCloudy => AnsiColor::Yellow,
        WeatherConditionIcon::LightShowers | WeatherConditionIcon::HeavyShowers => AnsiColor::BrightBlue,
        WeatherConditionIcon::LightSnow | WeatherConditionIcon::HeavySnow => AnsiColor::Cyan,
        WeatherConditionIcon::Thunderstorm => AnsiColor::BrightRed,
    }
}

/// The colour of the condition line of the report.
pub fn condition_color(icon: WeatherConditionIcon) -> (r: AnsiColor)
    ensures
        r == spec_condition_color(icon),
{
    match icon {
        WeatherConditionIcon::Unknown | WeatherConditionIcon::Fog | WeatherConditionIcon::Cloudy => AnsiColor::White,
        WeatherConditionIcon::Clear => AnsiColor::BrightYellow,
        WeatherConditionIcon::PartlyCloudy => AnsiColor::Yellow,
        WeatherConditionIcon::LightShowers | WeatherConditionIcon::HeavyShowers => AnsiColor::BrightBlue,
        WeatherConditionIcon::LightSnow | WeatherConditionIcon::HeavySnow => AnsiColor::Cyan,
        WeatherConditionIcon::Thunderstorm => AnsiColor::BrightRed,
    }
}

/// The colours of the parts of the text report.
#[derive(Debug, Clone, Copy, PartialEq, Eq, Structural)]
pub struct ColorTheme {
    pub label: AnsiColor,
    pub location: AnsiColor,
    pub temperature: AnsiColor,
    pub wind: AnsiColor,
    pub precipitation: AnsiColor,
    pub pressure: AnsiColor,
    pub humidity: AnsiColor,
}

pub open spec fn spec_simple_theme() -> ColorTheme {
    ColorTheme {
        label: AnsiColor::BrightBlue,
        location: AnsiColor::BrightWhite,
        temperature: AnsiColor::BrightYellow,
        wind: AnsiColor::BrightRed,
        precipitation: AnsiColor::BrightCyan,
        pressure: AnsiColor::BrightGreen,
        humidity: AnsiColor::Blue,
    }
}

impl ColorTheme {
    /// The default theme.
    pub fn simple() -> (r: ColorTheme)
        ensures
            r == spec_simple_theme(),
    {
        ColorTheme {
            label: AnsiColor::BrightBlue,
            location: AnsiColor::BrightWhite,
            temperature: AnsiColor::BrightYellow,
            wind: AnsiColor::BrightRed,
            precipitation: AnsiColor::BrightCyan,
            pressure: AnsiColor::BrightGreen,
            humidity: AnsiColor::Blue,
        }
    }
}

impl Default for ColorTheme {
    fn default() -> (r: ColorTheme)
        ensures
            r == spec_simple_theme(),
    {
        ColorTheme::simple()
    }
}


/// Terminal cells that the characters of `s` from index `i` on take: escape
/// sequences (from ESC up to and including the closing `m`) take none, the
/// lightning sign takes two and any other character one.
pub open spec fn width_from(s: Seq<char>, i: int, in_escape: bool) -> int
    decreases s.len() - i,
{
    if i < 0 || i >= s.len() {
        0
    } else if in_escape {
        width_from(s, i + 1, s[i] != 'm')
    } else if s[i] == '\x1b' {
        width_from(s, i + 1, true)
    } else if s[i] == '⚡' {
        2 + width_from(s, i + 1, false)
    } else {
        1 + width_from(s, i + 1, false)
    }
}

/// Terminal cells that a line takes on screen.
pub open spec fn rendered_width(s: Seq<char>) -> int {
    width_from(s, 0, false)
}

proof fn lemma_width_icon_unknown()
    ensures
        forall|i: int| 0 <= i < 7 ==> #[trigger] rendered_width(ICON_UNKNOWN[i]@) == 13,
{
    assert(rendered_width(ICON_UNKNOWN[0]@) == 13) by {
        reveal_strlit("             ");
        reveal_with_fuel(width_from, 14);
    }
    assert(rendered_width(ICON_UNKNOWN[1]@) == 13) by {
        reveal_strlit("    .-.      ");
        reveal_with_fuel(width_from, 14);
    }
    assert(rendered_width(ICON_UNKNOWN[2]@) == 13) by {
        reveal_strlit("     __)     ");
        reveal_with_fuel(width_from, 14);
    }
    assert(rendered_width(ICON_UNKNOWN[3]@) == 13) by {
        reveal_strlit("    (        ");
        reveal_with_fuel(width_from, 14);
    }
    assert(rendered_width(ICON_UNKNOWN[4]@) == 13) by {
        reveal_strlit("     `-’     ");
        reveal_with_fuel(width_from, 14);
    }
    assert(rendered_width(ICON_UNKNOWN[5]@) == 13) by {
        reveal_strlit("      •      ");
        reveal_with_fuel(width_from, 14);
    }
    assert(rendered_width(ICON_UNKNOWN[6]@) == 13) by {
        reveal_strlit("             ");
        reveal_with_fuel(width_from, 14);
    }
}

proof fn lemma_width_icon_clear_day()
    ensures
        forall|i: int| 0 <= i < 7 ==> #[trigger] rendered_width(ICON_CLEAR_DAY[i]@) == 13,
{
    assert(rendered_width(ICON_CLEAR_DAY[0]@) == 13) by {
        reveal_strlit("             ");
        reveal_with_fuel(width_from, 14);
    }
    assert(rendered_width(ICON_CLEAR_DAY[1]@) == 13) by {
        reveal_strlit("    \\   /    ");
        reveal_with_fuel(width_from, 14);
    }
    assert(rendered_width(ICON_CLEAR_DAY[2]@) == 13) by {
        reveal_strlit("     .-.     ");
        reveal_with_fuel(width_from, 14);
    }
    assert(rendered_width(ICON_CLEAR_DAY[3]@) == 13) by {
        reveal_strlit("  ― (   ) ―  ");
        reveal_with_fuel(width_from, 14);
    }
    assert(rendered_width(ICON_CLEAR_DAY[4]@) == 13) by {
        reveal_strlit("     `-’     ");
        reveal_with_fuel(width_from, 14);
    }
    assert(rendered_width(ICON_CLEAR_DAY[5]@) == 13) by {
        reveal_strlit("    /   \\    ");
        reveal_with_fuel(width_from, 14);
    }
    assert(rendered_width(ICON_CLEAR_DAY[6]@) == 13) by {
        reveal_strlit("             ");
        reveal_with_fuel(width_from, 14);
    }
}

proof fn lemma_width_icon_clear_night()
    ensures
        forall|i: int| 0 <= i < 7 ==> #[trigger] rendered_width(ICON_CLEAR_NIGHT[i]@) == 13,
{
    assert(rendered_width(ICON_CLEAR_NIGHT[0]@) == 13) by {
        reveal_strlit("     .  *    ");
        reveal_with_fuel(width_from, 14);
    }
    assert(rendered_width(ICON_CLEAR_NIGHT[1]@) == 13) by {
        reveal_strlit("      .-.    ");
        reveal_with_fuel(width_from, 14);
    }
    assert(rendered_width(ICON_CLEAR_NIGHT[2]@) == 13) by {
        reveal_strlit("   . ( (  *  ");
        reveal_with_fuel(width_from, 14);
    }
    assert(rendered_width(ICON_CLEAR_NIGHT[3]@) == 13) by {
        reveal_strlit("      `-’    ");
        reveal_with_fuel(width_from, 14);
    }
    assert(rendered_width(ICON_CLEAR_NIGHT[4]@) == 13) by {
        reveal_strlit("   *   .     ");
        reveal_with_fuel(width_from, 14);
    }
    assert(rendered_width(ICON_CLEAR_NIGHT[5]@) == 13) by {
        reveal_strlit("             ");
        reveal_with_fuel(width_from, 14);
    }
    assert(rendered_width(ICON_CLEAR_NIGHT[6]@) == 13) by {
        reveal_strlit("             ");
        reveal_with_fuel(width_from, 14);
    }
}

proof fn lemma_width_icon_partly_cloudy_day()
    ensures
        forall|i: int| 0 <= i < 7 ==> #[trigger] rendered_width(ICON_PARTLY_CLOUDY_DAY[i]@) == 13,
{
    assert(rendered_width(ICON_PARTLY_CLOUDY_DAY[0]@) == 13) by {
        reveal_strlit("             ");
        reveal_with_fuel(width_from, 14);
    }
    assert(rendered_width(ICON_PARTLY_CLOUDY_DAY[1]@) == 13) by {
        reveal_strlit("   \\  /      ");
        reveal_with_fuel(width_from, 14);
    }
    assert(rendered_width(ICON_PARTLY_CLOUDY_DAY[2]@) == 13) by {
        reveal_strlit(" _ /\"\".-.    ");
        reveal_with_fuel(width_from, 14);
    }
    assert(rendered_width(ICON_PARTLY_CLOUDY_DAY[3]@) == 13) by {
        reveal_strlit("   \\_(   ).  ");
        reveal_with_fuel(width_from, 14);
    }
    assert(rendered_width(ICON_PARTLY_CLOUDY_DAY[4]@) == 13) by {
        reveal_strlit("   /(___(__) ");
        reveal_with_fuel(width_from, 14);
    }
    assert(rendered_width(ICON_PARTLY_CLOUDY_DAY[5]@) == 13) by {
        reveal_strlit("             ");
        reveal_with_fuel(width_from, 14);
    }
    assert(rendered_width(ICON_PARTLY_CLOUDY_DAY[6]@) == 13) by {
        reveal_strlit("             ");
        reveal_with_fuel(width_from, 14);
    }
}

proof fn lemma_width_icon_partly_cloudy_night()
    ensures
        forall|i: int| 0 <= i < 7 ==> #[trigger] rendered_width(ICON_PARTLY_CLOUDY_NIGHT[i]@) == 13,
{
    assert(rendered_width(ICON_PARTLY_CLOUDY_NIGHT[0]@) == 13) by {
        reveal_strlit("             ");
        reveal_with_fuel(width_from, 14);
    }
    assert(rendered_width(ICON_PARTLY_CLOUDY_NIGHT[1]@) == 13) by {
        reveal_strlit("     . *     ");
        reveal_with_fuel(width_from, 14);
    }
    assert(rendered_width(ICON_PARTLY_CLOUDY_NIGHT[2]@) == 13) by {
        reveal_strlit("   _ .-.     ");
        reveal_with_fuel(width_from, 14);
    }
    assert(rendered_width(ICON_PARTLY_CLOUDY_NIGHT[3]@) == 13) by {
        reveal_strlit("    (   ).   ");
        reveal_with_fuel(width_from, 14);
    }
    assert(rendered_width(ICON_PARTLY_CLOUDY_NIGHT[4]@) == 13) by {
        reveal_strlit("   *(___(__) ");
        reveal_with_fuel(width_from, 14);
    }
    assert(rendered_width(ICON_PARTLY_CLOUDY_NIGHT[5]@) == 13) by {
        reveal_strlit("             ");
        reveal_with_fuel(width_from, 14);
    }
    assert(rendered_width(ICON_PARTLY_CLOUDY_NIGHT[6]@) == 13) by {
        reveal_strlit("             ");
        reveal_with_fuel(width_from, 14);
    }
}

proof fn lemma_width_icon_cloudy()
    ensures
        forall|i: int| 0 <= i < 7 ==> #[trigger] rendered_width(ICON_CLOUDY[i]@) == 13,
{
    assert(rendered_width(ICON_CLOUDY[0]@) == 13) by {
        reveal_strlit("             ");
        reveal_with_fuel(width_from, 14);
    }
    assert(rendered_width(ICON_CLOUDY[1]@) == 13) by {
        reveal_strlit("             ");
        reveal_with_fuel(width_from, 14);
    }
    assert(rendered_width(ICON_CLOUDY[2]@) == 13) by {
        reveal_strlit("     .--.    ");
        reveal_with_fuel(width_from, 14);
    }
    assert(rendered_width(ICON_CLOUDY[3]@) == 13) by {
        reveal_strlit("  .-(    ).  ");
        reveal_with_fuel(width_from, 14);
    }
    assert(rendered_width(ICON_CLOUDY[4]@) == 13) by {
        reveal_strlit(" (___.__)__) ");
        reveal_with_fuel(width_from, 14);
    }
    assert(rendered_width(ICON_CLOUDY[5]@) == 13) by {
        reveal_strlit("             ");
        reveal_with_fuel(width_from, 14);
    }
    assert(rendered_width(ICON_CLOUDY[6]@) == 13) by {
        reveal_strlit("             ");
        reveal_with_fuel(width_from, 14);
    }
}

proof fn lemma_width_icon_light_showers_day()
    ensures
        forall|i: int| 0 <= i < 7 ==> #[trigger] rendered_width(ICON_LIGHT_SHOWERS_DAY[i]@) == 13,
{
    assert(rendered_width(ICON_LIGHT_SHOWERS_DAY[0]@) == 13) by {
        reveal_strlit("             ");
        reveal_with_fuel(width_from, 14);
    }
    assert(rendered_width(ICON_LIGHT_SHOWERS_DAY[1]@) == 13) by {
        reveal_strlit(" _`/\"\".-.    ");
        reveal_with_fuel(width_from, 14);
    }
    assert(rendered_width(ICON_LIGHT_SHOWERS_DAY[2]@) == 13) by {
        reveal_strlit("  ,\\_(   ).  ");
        reveal_with_fuel(width_from, 14);
    }
    assert(rendered_width(ICON_LIGHT_SHOWERS_DAY[3]@) == 13) by {
        reveal_strlit("   /(___(__) ");
        reveal_with_fuel(width_from, 14);
    }
    assert(rendered_width(ICON_LIGHT_SHOWERS_DAY[4]@) == 13) by {
        reveal_strlit("     ' ' ' ' ");
        reveal_with_fuel(width_from, 14);
    }
    assert(rendered_width(ICON_LIGHT_SHOWERS_DAY[5]@) == 13) by {
        reveal_strlit("    ' ' ' '  ");
        reveal_with_fuel(width_from, 14);
    }
    assert(rendered_width(ICON_LIGHT_SHOWERS_DAY[6]@) == 13) by {
        reveal_strlit("             ");
        reveal_with_fuel(width_from, 14);
    }
}

proof fn lemma_width_icon_light_showers_night()
    ensures
        forall|i: int| 0 <= i < 7 ==> #[trigger] rendered_width(ICON_LIGHT_SHOWERS_NIGHT[i]@) == 13,
{
    assert(rendered_width(ICON_LIGHT_SHOWERS_NIGHT[0]@) == 13) by {
        reveal_strlit("     . *     ");
        reveal_with_fuel(width_from, 14);
    }
    assert(rendered_width(ICON_LIGHT_SHOWERS_NIGHT[1]@) == 13) by {
        reveal_strlit("   * .-.     ");
        reveal_with_fuel(width_from, 14);
    }
    assert(rendered_width(ICON_LIGHT_SHOWERS_NIGHT[2]@) == 13) by {
        reveal_strlit("    (   ).   ");
        reveal_with_fuel(width_from, 14);
    }
    assert(rendered_width(ICON_LIGHT_SHOWERS_NIGHT[3]@) == 13) by {
        reveal_strlit("   *(___(__) ");
        reveal_with_fuel(width_from, 14);
    }
    assert(rendered_width(ICON_LIGHT_SHOWERS_NIGHT[4]@) == 13) by {
        reveal_strlit("     ' ' ' ' ");
        reveal_with_fuel(width_from, 14);
    }
    assert(rendered_width(ICON_LIGHT_SHOWERS_NIGHT[5]@) == 13) by {
        reveal_strlit("    ' ' ' '  ");
        reveal_with_fuel(width_from, 14);
    }
    assert(rendered_width(ICON_LIGHT_SHOWERS_NIGHT[6]@) == 13) by {
        reveal_strlit("             ");
        reveal_with_fuel(width_from, 14);
    }
}

proof fn lemma_width_icon_heavy_showers_day()
    ensures
        forall|i: int| 0 <= i < 7 ==> #[trigger] rendered_width(ICON_HEAVY_SHOWERS_DAY[i]@) == 13,
{
    assert(rendered_width(ICON_HEAVY_SHOWERS_DAY[0]@) == 13) by {
        reveal_strlit("             ");
        reveal_with_fuel(width_from, 14);
    }
    assert(rendered_width(ICON_HEAVY_SHOWERS_DAY[1]@) == 13) by {
        reveal_strlit(" _`/\"\".-.    ");
        reveal_with_fuel(width_from, 14);
    }
    assert(rendered_width(ICON_HEAVY_SHOWERS_DAY[2]@) == 13) by {
        reveal_strlit("  ,\\_(   ).  ");
        reveal_with_fuel(width_from, 14);
    }
    assert(rendered_width(ICON_HEAVY_SHOWERS_DAY[3]@) == 13) by {
        reveal_strlit("   /(___(__) ");
        reveal_with_fuel(width_from, 14);
    }
    assert(rendered_width(ICON_HEAVY_SHOWERS_DAY[4]@) == 13) by {
        reveal_strlit("   ‚'‚'‚'‚'  ");
        reveal_with_fuel(width_from, 14);
    }
    assert(rendered_width(ICON_HEAVY_SHOWERS_DAY[5]@) == 13) by {
        reveal_strlit("   ‚'‚'‚'‚'  ");
        reveal_with_fuel(width_from, 14);
    }
    assert(rendered_width(ICON_HEAVY_SHOWERS_DAY[6]@) == 13) by {
        reveal_strlit("             ");
        reveal_with_fuel(width_from, 14);
    }
}

proof fn lemma_width_icon_heavy_showers_night()
    ensures
        forall|i: int| 0 <= i < 7 ==> #[trigger] rendered_width(ICON_HEAVY_SHOWERS_NIGHT[i]@) == 13,
{
    assert(rendered_width(ICON_HEAVY_SHOWERS_NIGHT[0]@) == 13) by {
        reveal_strlit("     . *     ");
        reveal_with_fuel(width_from, 14);
    }
    assert(rendered_width(ICON_HEAVY_SHOWERS_NIGHT[1]@) == 13) by {
        reveal_strlit("   * .-.     ");
        reveal_with_fuel(width_from, 14);
    }
    assert(rendered_width(ICON_HEAVY_SHOWERS_NIGHT[2]@) == 13) by {
        reveal_strlit("    (   ).   ");
        reveal_with_fuel(width_from, 14);
    }
    assert(rendered_width(ICON_HEAVY_SHOWERS_NIGHT[3]@) == 13) by {
        reveal_strlit("   *(___(__) ");
        reveal_with_fuel(width_from, 14);
    }
    assert(rendered_width(ICON_HEAVY_SHOWERS_NIGHT[4]@) == 13) by {
        reveal_strlit("   ‚'‚'‚'‚'  ");
        reveal_with_fuel(width_from, 14);
    }
    assert(rendered_width(ICON_HEAVY_SHOWERS_NIGHT[5]@) == 13) by {
        reveal_strlit("   ‚'‚'‚'‚'  ");
        reveal_with_fuel(width_from, 14);
    }
    assert(rendered_width(ICON_HEAVY_SHOWERS_NIGHT[6]@) == 13) by {
        reveal_strlit("             ");
        reveal_with_fuel(width_from, 14);
    }
}

proof fn lemma_width_icon_light_snow()
    ensures
        forall|i: int| 0 <= i < 7 ==> #[trigger] rendered_width(ICON_LIGHT_SNOW[i]@) == 13,
{
    assert(rendered_width(ICON_LIGHT_SNOW[0]@) == 13) by {
        reveal_strlit("             ");
        reveal_with_fuel(width_from, 14);
    }
    assert(rendered_width(ICON_LIGHT_SNOW[1]@) == 13) by {
        reveal_strlit("     .-.     ");
        reveal_with_fuel(width_from, 14);
    }
    assert(rendered_width(ICON_LIGHT_SNOW[2]@) == 13) by {
        reveal_strlit("    (   ).   ");
        reveal_with_fuel(width_from, 14);
    }
    assert(rendered_width(ICON_LIGHT_SNOW[3]@) == 13) by {
        reveal_strlit("   (___(__)  ");
        reveal_with_fuel(width_from, 14);
    }
    assert(rendered_width(ICON_LIGHT_SNOW[4]@) == 13) by {
        reveal_strlit("    *  *  *  ");
        reveal_with_fuel(width_from, 14);
    }
    assert(rendered_width(ICON_LIGHT_SNOW[5]@) == 13) by {
        reveal_strlit("   *  *  *   ");
        reveal_with_fuel(width_from, 14);
    }
    assert(rendered_width(ICON_LIGHT_SNOW[6]@) == 13) by {
        reveal_strlit("             ");
        reveal_with_fuel(width_from, 14);
    }
}

proof fn lemma_width_icon_heavy_snow()
    ensures
        forall|i: int| 0 <= i < 7 ==> #[trigger] rendered_width(ICON_HEAVY_SNOW[i]@) == 13,
{
    assert(rendered_width(ICON_HEAVY_SNOW[0]@) == 13) by {
        reveal_strlit("             ");
        reveal_with_fuel(width_from, 14);
    }
    assert(rendered_width(ICON_HEAVY_SNOW[1]@) == 13) by {
        reveal_strlit("     .-.     ");
        reveal_with_fuel(width_from, 14);
    }
    assert(rendered_width(ICON_HEAVY_SNOW[2]@) == 13) by {
        reveal_strlit("    (   ).   ");
        reveal_with_fuel(width_from, 14);
    }
    assert(rendered_width(ICON_HEAVY_SNOW[3]@) == 13) by {
        reveal_strlit("   (___(__)  ");
        reveal_with_fuel(width_from, 14);
    }
    assert(rendered_width(ICON_HEAVY_SNOW[4]@) == 13) by {
        reveal_strlit("   * * * *   ");
        reveal_with_fuel(width_from, 14);
    }
    assert(rendered_width(ICON_HEAVY_SNOW[5]@) == 13) by {
        reveal_strlit("  * * * *    ");
        reveal_with_fuel(width_from, 14);
    }
    assert(rendered_width(ICON_HEAVY_SNOW[6]@) == 13) by {
        reveal_strlit("             ");
        reveal_with_fuel(width_from, 14);
    }
}

proof fn lemma_width_icon_thunderstorm()
    ensures
        forall|i: int| 0 <= i < 7 ==> #[trigger] rendered_width(ICON_THUNDERSTORM[i]@) == 13,
{
    assert(rendered_width(ICON_THUNDERSTORM[0]@) == 13) by {
        reveal_strlit("             ");
        reveal_with_fuel(width_from, 14);
    }
    assert(rendered_width(ICON_THUNDERSTORM[1]@) == 13) by {
        reveal_strlit("     .-.     ");
        reveal_with_fuel(width_from, 14);
    }
    assert(rendered_width(ICON_THUNDERSTORM[2]@) == 13) by {
        reveal_strlit("    (   ).   ");
        reveal_with_fuel(width_from, 14);
    }
    assert(rendered_width(ICON_THUNDERSTORM[3]@) == 13) by {
        reveal_strlit("   (___(__)  ");
        reveal_with_fuel(width_from, 14);
    }
    assert(rendered_width(ICON_THUNDERSTORM[4]@) == 13) by {
        reveal_strlit("   ⚡\"\"⚡\"\"  ");
        reveal_with_fuel(width_from, 12);
    }
    assert(rendered_width(ICON_THUNDERSTORM[5]@) == 13) by {
        reveal_strlit("  ‚'‚'‚'‚'   ");
        reveal_with_fuel(width_from, 14);
    }
    assert(rendered_width(ICON_THUNDERSTORM[6]@) == 13) by {
        reveal_strlit("             ");
        reveal_with_fuel(width_from, 14);
    }
}

proof fn lemma_width_icon_fog()
    ensures
        forall|i: int| 0 <= i < 7 ==> #[trigger] rendered_width(ICON_FOG[i]@) == 13,
{
    assert(rendered_width(ICON_FOG[0]@) == 13) by {
        reveal_strlit("             ");
        reveal_with_fuel(width_from, 14);
    }
    assert(rendered_width(ICON_FOG[1]@) == 13) by {
        reveal_strlit("             ");
        reveal_with_fuel(width_from, 14);
    }
    assert(rendered_width(ICON_FOG[2]@) == 13) by {
        reveal_strlit(" _ - _ - _ - ");
        reveal_with_fuel(width_from, 14);
    }
    assert(rendered_width(ICON_FOG[3]@) == 13) by {
        reveal_strlit("  _ - _ - _  ");
        reveal_with_fuel(width_from, 14);
    }
    assert(rendered_width(ICON_FOG[4]@) == 13) by {
        reveal_strlit(" _ - _ - _ - ");
        reveal_with_fuel(width_from, 14);
    }
    assert(rendered_width(ICON_FOG[5]@) == 13) by {
        reveal_strlit("             ");
        reveal_with_fuel(width_from, 14);
    }
    assert(rendered_width(ICON_FOG[6]@) == 13) by {
        reveal_strlit("             ");
        reveal_with_fuel(width_from, 14);
    }
}

proof fn lemma_width_colored_icon_unknown()
    ensures
        forall|i: int| 0 <= i < 7 ==> #[trigger] rendered_width(COLORED_ICON_UNKNOWN[i]@) == 13,
{
    assert(rendered_width(COLORED_ICON_UNKNOWN[0]@) == 13) by {
        reveal_strlit("             ");
        reveal_with_fuel(width_from, 14);
    }
    assert(rendered_width(COLORED_ICON_UNKNOWN[1]@) == 13) by {
        reveal_strlit("    .-.      ");
        reveal_with_fuel(width_from, 14);
    }
    assert(rendered_width(COLORED_ICON_UNKNOWN[2]@) == 13) by {
        reveal_strlit("     __)     ");
        reveal_with_fuel(width_from, 14);
    }
    assert(rendered_width(COLORED_ICON_UNKNOWN[3]@) == 13) by {
        reveal_strlit("    (        ");
        reveal_with_fuel(width_from, 14);
    }
    assert(rendered_width(COLORED_ICON_UNKNOWN[4]@) == 13) by {
        reveal_strlit("     `-’     ");
        reveal_with_fuel(width_from, 14);
    }
    assert(rendered_width(COLORED_ICON_UNKNOWN[5]@) == 13) by {
        reveal_strlit("      •      ");
        reveal_with_fuel(width_from, 14);
    }
    assert(rendered_width(COLORED_ICON_UNKNOWN[6]@) == 13) by {
        reveal_strlit("             ");
        reveal_with_fuel(width_from, 14);
    }
}

proof fn lemma_width_colored_icon_clear_day()
    ensures
        forall|i: int| 0 <= i < 7 ==> #[trigger] rendered_width(COLORED_ICON_CLEAR_DAY[i]@) == 13,
{
    assert(rendered_width(COLORED_ICON_CLEAR_DAY[0]@) == 13) by {
        reveal_strlit("             ");
        reveal_with_fuel(width_from, 14);
    }
    assert(rendered_width(COLORED_ICON_CLEAR_DAY[1]@) == 13) by {
        reveal_strlit("\x1b[38;5;226m    \\   /    \x1b[0m");
        reveal_with_fuel(width_from, 29);
    }
    assert(rendered_width(COLORED_ICON_CLEAR_DAY[2]@) == 13) by {
        reveal_strlit("\x1b[38;5;226m     .-.     \x1b[0m");
        reveal_with_fuel(width_from, 29);
    }
    assert(rendered_width(COLORED_ICON_CLEAR_DAY[3]@) == 13) by {
        reveal_strlit("\x1b[38;5;226m  ― (   ) ―  \x1b[0m");
        reveal_with_fuel(width_from, 29);
    }
    assert(rendered_width(COLORED_ICON_CLEAR_DAY[4]@) == 13) by {
        reveal_strlit("\x1b[38;5;226m     `-’     \x1b[0m");
        reveal_with_fuel(width_from, 29);
    }
    assert(rendered_width(COLORED_ICON_CLEAR_DAY[5]@) == 13) by {
        reveal_strlit("\x1b[38;5;226m    /   \\    \x1b[0m");
        reveal_with_fuel(width_from, 29);
    }
    assert(rendered_width(COLORED_ICON_CLEAR_DAY[6]@) == 13) by {
        reveal_strlit("             ");
        reveal_with_fuel(width_from, 14);
    }
}

proof fn lemma_width_colored_icon_clear_night()
    ensures
        forall|i: int| 0 <= i < 7 ==> #[trigger] rendered_width(COLORED_ICON_CLEAR_NIGHT[i]@) == 13,
{
    assert(rendered_width(COLORED_ICON_CLEAR_NIGHT[0]@) == 13) by {
        reveal_strlit("\x1b[38;5;111;1m     .  *    \x1b[0m");
        reveal_with_fuel(width_from, 31);
    }
    assert(rendered_width(COLORED_ICON_CLEAR_NIGHT[1]@) == 13) by {
        reveal_strlit("\x1b[38;5;230;1m      .-.    \x1b[0m");
        reveal_with_fuel(width_from, 31);
    }
    assert(rendered_width(COLORED_ICON_CLEAR_NIGHT[2]@) == 13) by {
        reveal_strlit("\x1b[38;5;111;1m   . \x1b[38;5;230;1m( (\x1b[38;5;111;1m  *  \x1b[0m");
        reveal_with_fuel(width_from, 57);
    }
    assert(rendered_width(COLORED_ICON_CLEAR_NIGHT[3]@) == 13) by {
        reveal_strlit("\x1b[38;5;230;1m      `-’    \x1b[0m");
        reveal_with_fuel(width_from, 31);
    }
    assert(rendered_width(COLORED_ICON_CLEAR_NIGHT[4]@) == 13) by {
        reveal_strlit("\x1b[38;5;111;1m   *   .     \x1b[0m");
        reveal_with_fuel(width_from, 31);
    }
    assert(rendered_width(COLORED_ICON_CLEAR_NIGHT[5]@) == 13) by {
        reveal_strlit("             ");
        reveal_with_fuel(width_from, 14);
    }
    assert(rendered_width(COLORED_ICON_CLEAR_NIGHT[6]@) == 13) by {
        reveal_strlit("             ");
        reveal_with_fuel(width_from, 14);
    }
}

proof fn lemma_width_colored_icon_partly_cloudy_day()
    ensures
        forall|i: int| 0 <= i < 7 ==> #[trigger] rendered_width(COLORED_ICON_PARTLY_CLOUDY_DAY[i]@) == 13,
{
    assert(rendered_width(COLORED_ICON_PARTLY_CLOUDY_DAY[0]@) == 13) by {
        reveal_strlit("             ");
        reveal_with_fuel(width_from, 14);
    }
    assert(rendered_width(COLORED_ICON_PARTLY_CLOUDY_DAY[1]@) == 13) by {
        reveal_strlit("\x1b[38;5;226m   \\  /\x1b[0m      ");
        reveal_with_fuel(width_from, 29);
    }
    assert(rendered_width(COLORED_ICON_PARTLY_CLOUDY_DAY[2]@) == 13) by {
        reveal_strlit("\x1b[38;5;226m _ /\"\"\x1b[38;5;250m.-.    \x1b[0m");
        reveal_with_fuel(width_from, 40);
    }
    assert(rendered_width(COLORED_ICON_PARTLY_CLOUDY_DAY[3]@) == 13) by {
        reveal_strlit("\x1b[38;5;226m   \\_\x1b[38;5;250m(   ).  \x1b[0m");
        reveal_with_fuel(width_from, 40);
    }
    assert(rendered_width(COLORED_ICON_PARTLY_CLOUDY_DAY[4]@) == 13) by {
        reveal_strlit("\x1b[38;5;226m   /\x1b[38;5;250m(___(__) \x1b[0m");
        reveal_with_fuel(width_from, 40);
    }
    assert(rendered_width(COLORED_ICON_PARTLY_CLOUDY_DAY[5]@) == 13) by {
        reveal_strlit("             ");
        reveal_with_fuel(width_from, 14);
    }
    assert(rendered_width(COLORED_ICON_PARTLY_CLOUDY_DAY[6]@) == 13) by {
        reveal_strlit("             ");
        reveal_with_fuel(width_from, 14);
    }
}

proof fn lemma_width_colored_icon_partly_cloudy_night()
    ensures
        forall|i: int| 0 <= i < 7 ==> #[trigger] rendered_width(COLORED_ICON_PARTLY_CLOUDY_NIGHT[i]@) == 13,
{
    assert(rendered_width(COLORED_ICON_PARTLY_CLOUDY_NIGHT[0]@) == 13) by {
        reveal_strlit("             ");
        reveal_with_fuel(width_from, 14);
    }
    assert(rendered_width(COLORED_ICON_PARTLY_CLOUDY_NIGHT[1]@) == 13) by {
        reveal_strlit("\x1b[38;5;111;1m     . *     \x1b[0m");
        reveal_with_fuel(width_from, 31);
    }
    assert(rendered_width(COLORED_ICON_PARTLY_CLOUDY_NIGHT[2]@) == 13) by {
        reveal_strlit("\x1b[38;5;230;1m     \x1b[38;5;250m.-.     \x1b[0m");
        reveal_with_fuel(width_from, 42);
    }
    assert(rendered_width(COLORED_ICON_PARTLY_CLOUDY_NIGHT[3]@) == 13) by {
        reveal_strlit("\x1b[38;5;250m    (   ).   \x1b[0m");
        reveal_with_fuel(width_from, 29);
    }
    assert(rendered_width(COLORED_ICON_PARTLY_CLOUDY_NIGHT[4]@) == 13) by {
        reveal_strlit("\x1b[38;5;111;1m   *\x1b[38;5;250m(___(__) \x1b[0m");
        reveal_with_fuel(width_from, 42);
    }
    assert(rendered_width(COLORED_ICON_PARTLY_CLOUDY_NIGHT[5]@) == 13) by {
        reveal_strlit("             ");
        reveal_with_fuel(width_from, 14);
    }
    assert(rendered_width(COLORED_ICON_PARTLY_CLOUDY_NIGHT[6]@) == 13) by {
        reveal_strlit("             ");
        reveal_with_fuel(width_from, 14);
    }
}

proof fn lemma_width_colored_icon_cloudy()
    ensures
        forall|i: int| 0 <= i < 7 ==> #[trigger] rendered_width(COLORED_ICON_CLOUDY[i]@) == 13,
{
    assert(rendered_width(COLORED_ICON_CLOUDY[0]@) == 13) by {
        reveal_strlit("             ");
        reveal_with_fuel(width_from, 14);
    }
    assert(rendered_width(COLORED_ICON_CLOUDY[1]@) == 13) by {
        reveal_strlit("             ");
        reveal_with_fuel(width_from, 14);
    }
    assert(rendered_width(COLORED_ICON_CLOUDY[2]@) == 13) by {
        reveal_strlit("\x1b[38;5;250m     .--.    \x1b[0m");
        reveal_with_fuel(width_from, 29);
    }
    assert(rendered_width(COLORED_ICON_CLOUDY[3]@) == 13) by {
        reveal_strlit("\x1b[38;5;250m  .-(    ).  \x1b[0m");
        reveal_with_fuel(width_from, 29);
    }
    assert(rendered_width(COLORED_ICON_CLOUDY[4]@) == 13) by {
        reveal_strlit("\x1b[38;5;250m (___.__)__) \x1b[0m");
        reveal_with_fuel(width_from, 29);
    }
    assert(rendered_width(COLORED_ICON_CLOUDY[5]@) == 13) by {
        reveal_strlit("             ");
        reveal_with_fuel(width_from, 14);
    }
    assert(rendered_width(COLORED_ICON_CLOUDY[6]@) == 13) by {
        reveal_strlit("             ");
        reveal_with_fuel(width_from, 14);
    }
}

proof fn lemma_width_colored_icon_light_showers_day()
    ensures
        forall|i: int| 0 <= i < 7 ==> #[trigger] rendered_width(COLORED_ICON_LIGHT_SHOWERS_DAY[i]@) == 13,
{
    assert(rendered_width(COLORED_ICON_LIGHT_SHOWERS_DAY[0]@) == 13) by {
        reveal_strlit("             ");
        reveal_with_fuel(width_from, 14);
    }
    assert(rendered_width(COLORED_ICON_LIGHT_SHOWERS_DAY[1]@) == 13) by {
        reveal_strlit("\x1b[38;5;226m _`/\"\"\x1b[38;5;250m.-.    \x1b[0m");
        reveal_with_fuel(width_from, 40);
    }
    assert(rendered_width(COLORED_ICON_LIGHT_SHOWERS_DAY[2]@) == 13) by {
        reveal_strlit("\x1b[38;5;226m  ,\\_\x1b[38;5;250m(   ).  \x1b[0m");
        reveal_with_fuel(width_from, 40);
    }
    assert(rendered_width(COLORED_ICON_LIGHT_SHOWERS_DAY[3]@) == 13) by {
        reveal_strlit("\x1b[38;5;226m   /\x1b[38;5;250m(___(__) \x1b[0m");
        reveal_with_fuel(width_from, 40);
    }
    assert(rendered_width(COLORED_ICON_LIGHT_SHOWERS_DAY[4]@) == 13) by {
        reveal_strlit("\x1b[38;5;111m     ' ' ' ' \x1b[0m");
        reveal_with_fuel(width_from, 29);
    }
    assert(rendered_width(COLORED_ICON_LIGHT_SHOWERS_DAY[5]@) == 13) by {
        reveal_strlit("\x1b[38;5;111m    ' ' ' '  \x1b[0m");
        reveal_with_fuel(width_from, 29);
    }
    assert(rendered_width(COLORED_ICON_LIGHT_SHOWERS_DAY[6]@) == 13) by {
        reveal_strlit("             ");
        reveal_with_fuel(width_from, 14);
    }
}

proof fn lemma_width_colored_icon_light_showers_night()
    ensures
        forall|i: int| 0 <= i < 7 ==> #[trigger] rendered_width(COLORED_ICON_LIGHT_SHOWERS_NIGHT[i]@) == 13,
{
    assert(rendered_width(COLORED_ICON_LIGHT_SHOWERS_NIGHT[0]@) == 13) by {
        reveal_strlit("\x1b[38;5;111;1m     . *     \x1b[0m");
        reveal_with_fuel(width_from, 31);
    }
    assert(rendered_width(COLORED_ICON_LIGHT_SHOWERS_NIGHT[1]@) == 13) by {
        reveal_strlit("\x1b[38;5;111;1m   *\x1b[38;5;250m .-.     \x1b[0m");
        reveal_with_fuel(width_from, 42);
    }
    assert(rendered_width(COLORED_ICON_LIGHT_SHOWERS_NIGHT[2]@) == 13) by {
        reveal_strlit("\x1b[38;5;250m    (   ).   \x1b[0m");
        reveal_with_fuel(width_from, 29);
    }
    assert(rendered_width(COLORED_ICON_LIGHT_SHOWERS_NIGHT[3]@) == 13) by {
        reveal_strlit("\x1b[38;5;111;1m   *\x1b[38;5;250m(___(__) \x1b[0m");
        reveal_with_fuel(width_from, 42);
    }
    assert(rendered_width(COLORED_ICON_LIGHT_SHOWERS_NIGHT[4]@) == 13) by {
        reveal_strlit("\x1b[38;5;111m     ' ' ' ' \x1b[0m");
        reveal_with_fuel(width_from, 29);
    }
    assert(rendered_width(COLORED_ICON_LIGHT_SHOWERS_NIGHT[5]@) == 13) by {
        reveal_strlit("\x1b[38;5;111m    ' ' ' '  \x1b[0m");
        reveal_with_fuel(width_from, 29);
    }
    assert(rendered_width(COLORED_ICON_LIGHT_SHOWERS_NIGHT[6]@) == 13) by {
        reveal_strlit("             ");
        reveal_with_fuel(width_from, 14);
    }
}

proof fn lemma_width_colored_icon_heavy_showers_day()
    ensures
        forall|i: int| 0 <= i < 7 ==> #[trigger] rendered_width(COLORED_ICON_HEAVY_SHOWERS_DAY[i]@) == 13,
{
    assert(rendered_width(COLORED_ICON_HEAVY_SHOWERS_DAY[0]@) == 13) by {
        reveal_strlit("             ");
        reveal_with_fuel(width_from, 14);
    }
    assert(rendered_width(COLORED_ICON_HEAVY_SHOWERS_DAY[1]@) == 13) by {
        reveal_strlit("\x1b[38;5;226m _`/\"\"\x1b[38;5;240;1m.-.    \x1b[0m");
        reveal_with_fuel(width_from, 42);
    }
    assert(rendered_width(COLORED_ICON_HEAVY_SHOWERS_DAY[2]@) == 13) by {
        reveal_strlit("\x1b[38;5;226m  ,\\_\x1b[38;5;240;1m(   ).  \x1b[0m");
        reveal_with_fuel(width_from, 42);
    }
    assert(rendered_width(COLORED_ICON_HEAVY_SHOWERS_DAY[3]@) == 13) by {
        reveal_strlit("\x1b[38;5;226m   /\x1b[38;5;240;1m(___(__) \x1b[0m");
        reveal_with_fuel(width_from, 42);
    }
    assert(rendered_width(COLORED_ICON_HEAVY_SHOWERS_DAY[4]@) == 13) by {
        reveal_strlit("\x1b[38;5;21;1m   ‚'‚'‚'‚'  \x1b[0m");
        reveal_with_fuel(width_from, 30);
    }
    assert(rendered_width(COLORED_ICON_HEAVY_SHOWERS_DAY[5]@) == 13) by {
        reveal_strlit("\x1b[38;5;21;1m   ‚'‚'‚'‚'  \x1b[0m");
        reveal_with_fuel(width_from, 30);
    }
    assert(rendered_width(COLORED_ICON_HEAVY_SHOWERS_DAY[6]@) == 13) by {
        reveal_strlit("             ");
        reveal_with_fuel(width_from, 14);
    }
}

proof fn lemma_width_colored_icon_heavy_showers_night()
    ensures
        forall|i: int| 0 <= i < 7 ==> #[trigger] rendered_width(COLORED_ICON_HEAVY_SHOWERS_NIGHT[i]@) == 13,
{
    assert(rendered_width(COLORED_ICON_HEAVY_SHOWERS_NIGHT[0]@) == 13) by {
        reveal_strlit("\x1b[38;5;111;1m     . *     \x1b[0m");
        reveal_with_fuel(width_from, 31);
    }
    assert(rendered_width(COLORED_ICON_HEAVY_SHOWERS_NIGHT[1]@) == 13) by {
        reveal_strlit("\x1b[38;5;111;1m   *\x1b[38;5;240;1m .-.     \x1b[0m");
        reveal_with_fuel(width_from, 44);
    }
    assert(rendered_width(COLORED_ICON_HEAVY_SHOWERS_NIGHT[2]@) == 13) by {
        reveal_strlit("\x1b[38;5;240;1m    (   ).   \x1b[0m");
        reveal_with_fuel(width_from, 31);
    }
    assert(rendered_width(COLORED_ICON_HEAVY_SHOWERS_NIGHT[3]@) == 13) by {
        reveal_strlit("\x1b[38;5;111;1m   *\x1b[38;5;240;1m(___(__) \x1b[0m");
        reveal_with_fuel(width_from, 44);
    }
    assert(rendered_width(COLORED_ICON_HEAVY_SHOWERS_NIGHT[4]@) == 13) by {
        reveal_strlit("\x1b[38;5;21;1m   ‚'‚'‚'‚'  \x1b[0m");
        reveal_with_fuel(width_from, 30);
    }
    assert(rendered_width(COLORED_ICON_HEAVY_SHOWERS_NIGHT[5]@) == 13) by {
        reveal_strlit("\x1b[38;5;21;1m   ‚'‚'‚'‚'  \x1b[0m");
        reveal_with_fuel(width_from, 30);
    }
    assert(rendered_width(COLORED_ICON_HEAVY_SHOWERS_NIGHT[6]@) == 13) by {
        reveal_strlit("             ");
        reveal_with_fuel(width_from, 14);
    }
}

proof fn lemma_width_colored_icon_light_snow()
    ensures
        forall|i: int| 0 <= i < 7 ==> #[trigger] rendered_width(COLORED_ICON_LIGHT_SNOW[i]@) == 13,
{
    assert(rendered_width(COLORED_ICON_LIGHT_SNOW[0]@) == 13) by {
        reveal_strlit("             ");
        reveal_with_fuel(width_from, 14);
    }
    assert(rendered_width(COLORED_ICON_LIGHT_SNOW[1]@) == 13) by {
        reveal_strlit("\x1b[38;5;250m     .-.     \x1b[0m");
        reveal_with_fuel(width_from, 29);
    }
    assert(rendered_width(COLORED_ICON_LIGHT_SNOW[2]@) == 13) by {
        reveal_strlit("\x1b[38;5;250m    (   ).   \x1b[0m");
        reveal_with_fuel(width_from, 29);
    }
    assert(rendered_width(COLORED_ICON_LIGHT_SNOW[3]@) == 13) by {
        reveal_strlit("\x1b[38;5;250m   (___(__)  \x1b[0m");
        reveal_with_fuel(width_from, 29);
    }
    assert(rendered_width(COLORED_ICON_LIGHT_SNOW[4]@) == 13) by {
        reveal_strlit("\x1b[38;5;255m    *  *  *  \x1b[0m");
        reveal_with_fuel(width_from, 29);
    }
    assert(rendered_width(COLORED_ICON_LIGHT_SNOW[5]@) == 13) by {
        reveal_strlit("\x1b[38;5;255m   *  *  *   \x1b[0m");
        reveal_with_fuel(width_from, 29);
    }
    assert(rendered_width(COLORED_ICON_LIGHT_SNOW[6]@) == 13) by {
        reveal_strlit("             ");
        reveal_with_fuel(width_from, 14);
    }
}

proof fn lemma_width_colored_icon_heavy_snow()
    ensures
        forall|i: int| 0 <= i < 7 ==> #[trigger] rendered_width(COLORED_ICON_HEAVY_SNOW[i]@) == 13,
{
    assert(rendered_width(COLORED_ICON_HEAVY_SNOW[0]@) == 13) by {
        reveal_strlit("             ");
        reveal_with_fuel(width_from, 14);
    }
    assert(rendered_width(COLORED_ICON_HEAVY_SNOW[1]@) == 13) by {
        reveal_strlit("\x1b[38;5;240;1m     .-.     \x1b[0m");
        reveal_with_fuel(width_from, 31);
    }
    assert(rendered_width(COLORED_ICON_HEAVY_SNOW[2]@) == 13) by {
        reveal_strlit("\x1b[38;5;240;1m    (   ).   \x1b[0m");
        reveal_with_fuel(width_from, 31);
    }
    assert(rendered_width(COLORED_ICON_HEAVY_SNOW[3]@) == 13) by {
        reveal_strlit("\x1b[38;5;240;1m   (___(__)  \x1b[0m");
        reveal_with_fuel(width_from, 31);
    }
    assert(rendered_width(COLORED_ICON_HEAVY_SNOW[4]@) == 13) by {
        reveal_strlit("\x1b[38;5;255;1m   * * * *   \x1b[0m");
        reveal_with_fuel(width_from, 31);
    }
    assert(rendered_width(COLORED_ICON_HEAVY_SNOW[5]@) == 13) by {
        reveal_strlit("\x1b[38;5;255;1m  * * * *    \x1b[0m");
        reveal_with_fuel(width_from, 31);
    }
    assert(rendered_width(COLORED_ICON_HEAVY_SNOW[6]@) == 13) by {
        reveal_strlit("             ");
        reveal_with_fuel(width_from, 14);
    }
}

proof fn lemma_width_colored_icon_thunderstorm()
    ensures
        forall|i: int| 0 <= i < 7 ==> #[trigger] rendered_width(COLORED_ICON_THUNDERSTORM[i]@) == 13,
{
    assert(rendered_width(COLORED_ICON_THUNDERSTORM[0]@) == 13) by {
        reveal_strlit("             ");
        reveal_with_fuel(width_from, 14);
    }
    assert(rendered_width(COLORED_ICON_THUNDERSTORM[1]@) == 13) by {
        reveal_strlit("\x1b[38;5;240;1m     .-.     \x1b[0m");
        reveal_with_fuel(width_from, 31);
    }
    assert(rendered_width(COLORED_ICON_THUNDERSTORM[2]@) == 13) by {
        reveal_strlit("\x1b[38;5;240;1m    (   ).   \x1b[0m");
        reveal_with_fuel(width_from, 31);
    }
    assert(rendered_width(COLORED_ICON_THUNDERSTORM[3]@) == 13) by {
        reveal_strlit("\x1b[38;5;240;1m   (___(__)  \x1b[0m");
        reveal_with_fuel(width_from, 31);
    }
    assert(rendered_width(COLORED_ICON_THUNDERSTORM[4]@) == 13) by {
        reveal_strlit("\x1b[38;5;228;5m   ⚡\x1b[38;5;111;25m\"\"\x1b[38;5;228;5m⚡\x1b[38;5;111;25m\"\"  \x1b[0m");
        reveal_with_fuel(width_from, 70);
    }
    assert(rendered_width(COLORED_ICON_THUNDERSTORM[5]@) == 13) by {
        reveal_strlit("\x1b[38;5;21;1m  ‚'‚'‚'‚'   \x1b[0m");
        reveal_with_fuel(width_from, 30);
    }
    assert(rendered_width(COLORED_ICON_THUNDERSTORM[6]@) == 13) by {
        reveal_strlit("             ");
        reveal_with_fuel(width_from, 14);
    }
}

proof fn lemma_width_colored_icon_fog()
    ensures
        forall|i: int| 0 <= i < 7 ==> #[trigger] rendered_width(COLORED_ICON_FOG[i]@) == 13,
{
    assert(rendered_width(COLORED_ICON_FOG[0]@) == 13) by {
        reveal_strlit("             ");
        reveal_with_fuel(width_from, 14);
    }
    assert(rendered_width(COLORED_ICON_FOG[1]@) == 13) by {
        reveal_strlit("             ");
        reveal_with_fuel(width_from, 14);
    }
    assert(rendered_width(COLORED_ICON_FOG[2]@) == 13) by {
        reveal_strlit("\x1b[38;5;251m _ - _ - _ - \x1b[0m");
        reveal_with_fuel(width_from, 29);
    }
    assert(rendered_width(COLORED_ICON_FOG[3]@) == 13) by {
        reveal_strlit("\x1b[38;5;251m  _ - _ - _  \x1b[0m");
        reveal_with_fuel(width_from, 29);
    }
    assert(rendered_width(COLORED_ICON_FOG[4]@) == 13) by {
        reveal_strlit("\x1b[38;5;251m _ - _ - _ - \x1b[0m");
        reveal_with_fuel(width_from, 29);
    }
    assert(rendered_width(COLORED_ICON_FOG[5]@) == 13) by {
        reveal_strlit("             ");
        reveal_with_fuel(width_from, 14);
    }
    assert(rendered_width(COLORED_ICON_FOG[6]@) == 13) by {
        reveal_strlit("             ");
        reveal_with_fuel(width_from, 14);
    }
}

/// Every line of every icon, plain or coloured, by day or by night, takes
/// 13 cells, so the labels beside the icons line up.
pub proof fn lemma_icons_have_uniform_width(v: WeatherConditionIcon, is_day: bool, i: int)
    requires
        0 <= i < 7,
    ensures
        rendered_width(v.spec_icon(is_day)[i]@) == 13,
        rendered_width(v.spec_colored_icon(is_day)[i]@) == 13,
{
    lemma_width_icon_unknown();
    lemma_width_icon_clear_day();
    lemma_width_icon_clear_night();
    lemma_width_icon_partly_cloudy_day();
    lemma_width_icon_partly_cloudy_night();
    lemma_width_icon_cloudy();
    lemma_width_icon_light_showers_day();
    lemma_width_icon_light_showers_night();
    lemma_width_icon_heavy_showers_day();
    lemma_width_icon_heavy_showers_night();
    lemma_width_icon_light_snow();
    lemma_width_icon_heavy_snow();
    lemma_width_icon_thunderstorm();
    lemma_width_icon_fog();
    lemma_width_colored_icon_unknown();
    lemma_width_colored_icon_clear_day();
    lemma_width_colored_icon_clear_night();
    lemma_width_colored_icon_partly_cloudy_day();
    lemma_width_colored_icon_partly_cloudy_night();
    lemma_width_colored_icon_cloudy();
    lemma_width_colored_icon_light_showers_day();
    lemma_width_colored_icon_light_showers_night();
    lemma_width_colored_icon_heavy_showers_day();
    lemma_width_colored_icon_heavy_showers_night();
    lemma_width_colored_icon_light_snow();
    lemma_width_colored_icon_heavy_snow();
    lemma_width_colored_icon_thunderstorm();
    lemma_width_colored_icon_fog();
}




/// Whether `colored` from index `i` on, with its ANSI escape sequences (from
/// ESC up to and including the closing `m`) skipped, reads exactly as
/// `plain` from index `j` on.
pub open spec fn shows_from(colored: Seq<char>, plain: Seq<char>, i: int, j: int, in_escape: bool) -> bool
    decreases colored.len() - i,
{
    if i < 0 || i >= colored.len() {
        j == plain.len()
    } else if in_escape {
        shows_from(colored, plain, i + 1, j, colored[i] != 'm')
    } else if colored[i] == '\x1b' {
        shows_from(colored, plain, i + 1, j, true)
    } else {
        0 <= j < plain.len() && colored[i] == plain[j] && shows_from(colored, plain, i + 1, j + 1, false)
    }
}

/// Whether a coloured line shows on a terminal the characters of `plain`.
pub open spec fn shows_as(colored: Seq<char>, plain: Seq<char>) -> bool {
    shows_from(colored, plain, 0, 0, false)
}

proof fn lemma_shows_unknown_0()
    ensures
        shows_as(COLORED_ICON_UNKNOWN[0]@, ICON_UNKNOWN[0]@),
{
    reveal_strlit("             ");
    reveal_strlit("             ");
    reveal_with_fuel(shows_from, 15);
}

proof fn lemma_shows_unknown_1()
    ensures
        shows_as(COLORED_ICON_UNKNOWN[1]@, ICON_UNKNOWN[1]@),
{
    reveal_strlit("    .-.      ");
    reveal_strlit("    .-.      ");
    reveal_with_fuel(shows_from, 15);
}

proof fn lemma_shows_unknown_2()
    ensures
        shows_as(COLORED_ICON_UNKNOWN[2]@, ICON_UNKNOWN[2]@),
{
    reveal_strlit("     __)     ");
    reveal_strlit("     __)     ");
    reveal_with_fuel(shows_from, 15);
}

proof fn lemma_shows_unknown_3()
    ensures
        shows_as(COLORED_ICON_UNKNOWN[3]@, ICON_UNKNOWN[3]@),
{
    reveal_strlit("    (        ");
    reveal_strlit("    (        ");
    reveal_with_fuel(shows_from, 15);
}

proof fn lemma_shows_unknown_4()
    ensures
        shows_as(COLORED_ICON_UNKNOWN[4]@, ICON_UNKNOWN[4]@),
{
    reveal_strlit("     `-’     ");
    reveal_strlit("     `-’     ");
    reveal_with_fuel(shows_from, 15);
}

proof fn lemma_shows_unknown_5()
    ensures
        shows_as(COLORED_ICON_UNKNOWN[5]@, ICON_UNKNOWN[5]@),
{
    reveal_strlit("      •      ");
    reveal_strlit("      •      ");
    reveal_with_fuel(shows_from, 15);
}

proof fn lemma_shows_unknown_6()
    ensures
        shows_as(COLORED_ICON_UNKNOWN[6]@, ICON_UNKNOWN[6]@),
{
    reveal_strlit("             ");
    reveal_strlit("             ");
    reveal_with_fuel(shows_from, 15);
}

proof fn lemma_shows_clear_day_0()
    ensures
        shows_as(COLORED_ICON_CLEAR_DAY[0]@, ICON_CLEAR_DAY[0]@),
{
    reveal_strlit("             ");
    reveal_strlit("             ");
    reveal_with_fuel(shows_from, 15);
}

proof fn lemma_shows_clear_day_1()
    ensures
        shows_as(COLORED_ICON_CLEAR_DAY[1]@, ICON_CLEAR_DAY[1]@),
{
    reveal_strlit("\x1b[38;5;226m    \\   /    \x1b[0m");
    reveal_strlit("    \\   /    ");
    reveal_with_fuel(shows_from, 30);
}

proof fn lemma_shows_clear_day_2()
    ensures
        shows_as(COLORED_ICON_CLEAR_DAY[2]@, ICON_CLEAR_DAY[2]@),
{
    reveal_strlit("\x1b[38;5;226m     .-.     \x1b[0m");
    reveal_strlit("     .-.     ");
    reveal_with_fuel(shows_from, 30);
}

proof fn lemma_shows_clear_day_3()
    ensures
        shows_as(COLORED_ICON_CLEAR_DAY[3]@, ICON_CLEAR_DAY[3]@),
{
    reveal_strlit("\x1b[38;5;226m  ― (   ) ―  \x1b[0m");
    reveal_strlit("  ― (   ) ―  ");
    reveal_with_fuel(shows_from, 30);
}

proof fn lemma_shows_clear_day_4()
    ensures
        shows_as(COLORED_ICON_CLEAR_DAY[4]@, ICON_CLEAR_DAY[4]@),
{
    reveal_strlit("\x1b[38;5;226m     `-’     \x1b[0m");
    reveal_strlit("     `-’     ");
    reveal_with_fuel(shows_from, 30);
}

proof fn lemma_shows_clear_day_5()
    ensures
        shows_as(COLORED_ICON_CLEAR_DAY[5]@, ICON_CLEAR_DAY[5]@),
{
    reveal_strlit("\x1b[38;5;226m    /   \\    \x1b[0m");
    reveal_strlit("    /   \\    ");
    reveal_with_fuel(shows_from, 30);
}

proof fn lemma_shows_clear_day_6()
    ensures
        shows_as(COLORED_ICON_CLEAR_DAY[6]@, ICON_CLEAR_DAY[6]@),
{
    reveal_strlit("             ");
    reveal_strlit("             ");
    reveal_with_fuel(shows_from, 15);
}

proof fn lemma_shows_clear_night_0()
    ensures
        shows_as(COLORED_ICON_CLEAR_NIGHT[0]@, ICON_CLEAR_NIGHT[0]@),
{
    reveal_strlit("\x1b[38;5;111;1m     .  *    \x1b[0m");
    reveal_strlit("     .  *    ");
    reveal_with_fuel(shows_from, 32);
}

proof fn lemma_shows_clear_night_1()
    ensures
        shows_as(COLORED_ICON_CLEAR_NIGHT[1]@, ICON_CLEAR_NIGHT[1]@),
{
    reveal_strlit("\x1b[38;5;230;1m      .-.    \x1b[0m");
    reveal_strlit("      .-.    ");
    reveal_with_fuel(shows_from, 32);
}

proof fn lemma_shows_clear_night_2()
    ensures
        shows_as(COLORED_ICON_CLEAR_NIGHT[2]@, ICON_CLEAR_NIGHT[2]@),
{
    reveal_strlit("\x1b[38;5;111;1m   . \x1b[38;5;230;1m( (\x1b[38;5;111;1m  *  \x1b[0m");
    reveal_strlit("   . ( (  *  ");
    reveal_with_fuel(shows_from, 58);
}

proof fn lemma_shows_clear_night_3()
    ensures
        shows_as(COLORED_ICON_CLEAR_NIGHT[3]@, ICON_CLEAR_NIGHT[3]@),
{
    reveal_strlit("\x1b[38;5;230;1m      `-’    \x1b[0m");
    reveal_strlit("      `-’    ");
    reveal_with_fuel(shows_from, 32);
}

proof fn lemma_shows_clear_night_4()
    ensures
        shows_as(COLORED_ICON_CLEAR_NIGHT[4]@, ICON_CLEAR_NIGHT[4]@),
{
    reveal_strlit("\x1b[38;5;111;1m   *   .     \x1b[0m");
    reveal_strlit("   *   .     ");
    reveal_with_fuel(shows_from, 32);
}

proof fn lemma_shows_clear_night_5()
    ensures
        shows_as(COLORED_ICON_CLEAR_NIGHT[5]@, ICON_CLEAR_NIGHT[5]@),
{
    reveal_strlit("             ");
    reveal_strlit("             ");
    reveal_with_fuel(shows_from, 15);
}

proof fn lemma_shows_clear_night_6()
    ensures
        shows_as(COLORED_ICON_CLEAR_NIGHT[6]@, ICON_CLEAR_NIGHT[6]@),
{
    reveal_strlit("             ");
    reveal_strlit("             ");
    reveal_with_fuel(shows_from, 15);
}

proof fn lemma_shows_partly_cloudy_day_0()
    ensures
        shows_as(COLORED_ICON_PARTLY_CLOUDY_DAY[0]@, ICON_PARTLY_CLOUDY_DAY[0]@),
{
    reveal_strlit("             ");
    reveal_strlit("             ");
    reveal_with_fuel(shows_from, 15);
}

proof fn lemma_shows_partly_cloudy_day_1()
    ensures
        shows_as(COLORED_ICON_PARTLY_CLOUDY_DAY[1]@, ICON_PARTLY_CLOUDY_DAY[1]@),
{
    reveal_strlit("\x1b[38;5;226m   \\  /\x1b[0m      ");
    reveal_strlit("   \\  /      ");
    reveal_with_fuel(shows_from, 30);
}

proof fn lemma_shows_partly_cloudy_day_2()
    ensures
        shows_as(COLORED_ICON_PARTLY_CLOUDY_DAY[2]@, ICON_PARTLY_CLOUDY_DAY[2]@),
{
    reveal_strlit("\x1b[38;5;226m _ /\"\"\x1b[38;5;250m.-.    \x1b[0m");
    reveal_strlit(" _ /\"\".-.    ");
    reveal_with_fuel(shows_from, 41);
}

proof fn lemma_shows_partly_cloudy_day_3()
    ensures
        shows_as(COLORED_ICON_PARTLY_CLOUDY_DAY[3]@, ICON_PARTLY_CLOUDY_DAY[3]@),
{
    reveal_strlit("\x1b[38;5;226m   \\_\x1b[38;5;250m(   ).  \x1b[0m");
    reveal_strlit("   \\_(   ).  ");
    reveal_with_fuel(shows_from, 41);
}

proof fn lemma_shows_partly_cloudy_day_4()
    ensures
        shows_as(COLORED_ICON_PARTLY_CLOUDY_DAY[4]@, ICON_PARTLY_CLOUDY_DAY[4]@),
{
    reveal_strlit("\x1b[38;5;226m   /\x1b[38;5;250m(___(__) \x1b[0m");
    reveal_strlit("   /(___(__) ");
    reveal_with_fuel(shows_from, 41);
}

proof fn lemma_shows_partly_cloudy_day_5()
    ensures
        shows_as(COLORED_ICON_PARTLY_CLOUDY_DAY[5]@, ICON_PARTLY_CLOUDY_DAY[5]@),
{
    reveal_strlit("             ");
    reveal_strlit("             ");
    reveal_with_fuel(shows_from, 15);
}

proof fn lemma_shows_partly_cloudy_day_6()
    ensures
        shows_as(COLORED_ICON_PARTLY_CLOUDY_DAY[6]@, ICON_PARTLY_CLOUDY_DAY[6]@),
{
    reveal_strlit("             ");
    reveal_strlit("             ");
    reveal_with_fuel(shows_from, 15);
}

proof fn lemma_shows_partly_cloudy_night_0()
    ensures
        shows_as(COLORED_ICON_PARTLY_CLOUDY_NIGHT[0]@, ICON_PARTLY_CLOUDY_NIGHT[0]@),
{
    reveal_strlit("             ");
    reveal_strlit("             ");
    reveal_with_fuel(shows_from, 15);
}

proof fn lemma_shows_partly_cloudy_night_1()
    ensures
        shows_as(COLORED_ICON_PARTLY_CLOUDY_NIGHT[1]@, ICON_PARTLY_CLOUDY_NIGHT[1]@),
{
    reveal_strlit("\x1b[38;5;111;1m     . *     \x1b[0m");
    reveal_strlit("     . *     ");
    reveal_with_fuel(shows_from, 32);
}

proof fn lemma_shows_partly_cloudy_night_3()
    ensures
        shows_as(COLORED_ICON_PARTLY_CLOUDY_NIGHT[3]@, ICON_PARTLY_CLOUDY_NIGHT[3]@),
{
    reveal_strlit("\x1b[38;5;250m    (   ).   \x1b[0m");
    reveal_strlit("    (   ).   ");
    reveal_with_fuel(shows_from, 30);
}

proof fn lemma_shows_partly_cloudy_night_4()
    ensures
        shows_as(COLORED_ICON_PARTLY_CLOUDY_NIGHT[4]@, ICON_PARTLY_CLOUDY_NIGHT[4]@),
{
    reveal_strlit("\x1b[38;5;111;1m   *\x1b[38;5;250m(___(__) \x1b[0m");
    reveal_strlit("   *(___(__) ");
    reveal_with_fuel(shows_from, 43);
}

proof fn lemma_shows_partly_cloudy_night_5()
    ensures
        shows_as(COLORED_ICON_PARTLY_CLOUDY_NIGHT[5]@, ICON_PARTLY_CLOUDY_NIGHT[5]@),
{
    reveal_strlit("             ");
    reveal_strlit("             ");
    reveal_with_fuel(shows_from, 15);
}

proof fn lemma_shows_partly_cloudy_night_6()
    ensures
        shows_as(COLORED_ICON_PARTLY_CLOUDY_NIGHT[6]@, ICON_PARTLY_CLOUDY_NIGHT[6]@),
{
    reveal_strlit("             ");
    reveal_strlit("             ");
    reveal_with_fuel(shows_from, 15);
}

proof fn lemma_shows_cloudy_0()
    ensures
        shows_as(COLORED_ICON_CLOUDY[0]@, ICON_CLOUDY[0]@),
{
    reveal_strlit("             ");
    reveal_strlit("             ");
    reveal_with_fuel(shows_from, 15);
}

proof fn lemma_shows_cloudy_1()
    ensures
        shows_as(COLORED_ICON_CLOUDY[1]@, ICON_CLOUDY[1]@),
{
    reveal_strlit("             ");
    reveal_strlit("             ");
    reveal_with_fuel(shows_from, 15);
}

proof fn lemma_shows_cloudy_2()
    ensures
        shows_as(COLORED_ICON_CLOUDY[2]@, ICON_CLOUDY[2]@),
{
    reveal_strlit("\x1b[38;5;250m     .--.    \x1b[0m");
    reveal_strlit("     .--.    ");
    reveal_with_fuel(shows_from, 30);
}

proof fn lemma_shows_cloudy_3()
    ensures
        shows_as(COLORED_ICON_CLOUDY[3]@, ICON_CLOUDY[3]@),
{
    reveal_strlit("\x1b[38;5;250m  .-(    ).  \x1b[0m");
    reveal_strlit("  .-(    ).  ");
    reveal_with_fuel(shows_from, 30);
}

proof fn lemma_shows_cloudy_4()
    ensures
        shows_as(COLORED_ICON_CLOUDY[4]@, ICON_CLOUDY[4]@),
{
    reveal_strlit("\x1b[38;5;250m (___.__)__) \x1b[0m");
    reveal_strlit(" (___.__)__) ");
    reveal_with_fuel(shows_from, 30);
}

proof fn lemma_shows_cloudy_5()
    ensures
        shows_as(COLORED_ICON_CLOUDY[5]@, ICON_CLOUDY[5]@),
{
    reveal_strlit("             ");
    reveal_strlit("             ");
    reveal_with_fuel(shows_from, 15);
}

proof fn lemma_shows_cloudy_6()
    ensures
        shows_as(COLORED_ICON_CLOUDY[6]@, ICON_CLOUDY[6]@),
{
    reveal_strlit("             ");
    reveal_strlit("             ");
    reveal_with_fuel(shows_from, 15);
}

proof fn lemma_shows_light_showers_day_0()
    ensures
        shows_as(COLORED_ICON_LIGHT_SHOWERS_DAY[0]@, ICON_LIGHT_SHOWERS_DAY[0]@),
{
    reveal_strlit("             ");
    reveal_strlit("             ");
    reveal_with_fuel(shows_from, 15);
}

proof fn lemma_shows_light_showers_day_1()
    ensures
        shows_as(COLORED_ICON_LIGHT_SHOWERS_DAY[1]@, ICON_LIGHT_SHOWERS_DAY[1]@),
{
    reveal_strlit("\x1b[38;5;226m _`/\"\"\x1b[38;5;250m.-.    \x1b[0m");
    reveal_strlit(" _`/\"\".-.    ");
    reveal_with_fuel(shows_from, 41);
}

proof fn lemma_shows_light_showers_day_2()
    ensures
        shows_as(COLORED_ICON_LIGHT_SHOWERS_DAY[2]@, ICON_LIGHT_SHOWERS_DAY[2]@),
{
    reveal_strlit("\x1b[38;5;226m  ,\\_\x1b[38;5;250m(   ).  \x1b[0m");
    reveal_strlit("  ,\\_(   ).  ");
    reveal_with_fuel(shows_from, 41);
}

proof fn lemma_shows_light_showers_day_3()
    ensures
        shows_as(COLORED_ICON_LIGHT_SHOWERS_DAY[3]@, ICON_LIGHT_SHOWERS_DAY[3]@),
{
    reveal_strlit("\x1b[38;5;226m   /\x1b[38;5;250m(___(__) \x1b[0m");
    reveal_strlit("   /(___(__) ");
    reveal_with_fuel(shows_from, 41);
}

proof fn lemma_shows_light_showers_day_4()
    ensures
        shows_as(COLORED_ICON_LIGHT_SHOWERS_DAY[4]@, ICON_LIGHT_SHOWERS_DAY[4]@),
{
    reveal_strlit("\x1b[38;5;111m     ' ' ' ' \x1b[0m");
    reveal_strlit("     ' ' ' ' ");
    reveal_with_fuel(shows_from, 30);
}

proof fn lemma_shows_light_showers_day_5()
    ensures
        shows_as(COLORED_ICON_LIGHT_SHOWERS_DAY[5]@, ICON_LIGHT_SHOWERS_DAY[5]@),
{
    reveal_strlit("\x1b[38;5;111m    ' ' ' '  \x1b[0m");
    reveal_strlit("    ' ' ' '  ");
    reveal_with_fuel(shows_from, 30);
}

proof fn lemma_shows_light_showers_day_6()
    ensures
        shows_as(COLORED_ICON_LIGHT_SHOWERS_DAY[6]@, ICON_LIGHT_SHOWERS_DAY[6]@),
{
    reveal_strlit("             ");
    reveal_strlit("             ");
    reveal_with_fuel(shows_from, 15);
}

proof fn lemma_shows_light_showers_night_0()
    ensures
        shows_as(COLORED_ICON_LIGHT_SHOWERS_NIGHT[0]@, ICON_LIGHT_SHOWERS_NIGHT[0]@),
{
    reveal_strlit("\x1b[38;5;111;1m     . *     \x1b[0m");
    reveal_strlit("     . *     ");
    reveal_with_fuel(shows_from, 32);
}

proof fn lemma_shows_light_showers_night_1()
    ensures
        shows_as(COLORED_ICON_LIGHT_SHOWERS_NIGHT[1]@, ICON_LIGHT_SHOWERS_NIGHT[1]@),
{
    reveal_strlit("\x1b[38;5;111;1m   *\x1b[38;5;250m .-.     \x1b[0m");
    reveal_strlit("   * .-.     ");
    reveal_with_fuel(shows_from, 43);
}

proof fn lemma_shows_light_showers_night_2()
    ensures
        shows_as(COLORED_ICON_LIGHT_SHOWERS_NIGHT[2]@, ICON_LIGHT_SHOWERS_NIGHT[2]@),
{
    reveal_strlit("\x1b[38;5;250m    (   ).   \x1b[0m");
    reveal_strlit("    (   ).   ");
    reveal_with_fuel(shows_from, 30);
}

proof fn lemma_shows_light_showers_night_3()
    ensures
        shows_as(COLORED_ICON_LIGHT_SHOWERS_NIGHT[3]@, ICON_LIGHT_SHOWERS_NIGHT[3]@),
{
    reveal_strlit("\x1b[38;5;111;1m   *\x1b[38;5;250m(___(__) \x1b[0m");
    reveal_strlit("   *(___(__) ");
    reveal_with_fuel(shows_from, 43);
}

proof fn lemma_shows_light_showers_night_4()
    ensures
        shows_as(COLORED_ICON_LIGHT_SHOWERS_NIGHT[4]@, ICON_LIGHT_SHOWERS_NIGHT[4]@),
{
    reveal_strlit("\x1b[38;5;111m     ' ' ' ' \x1b[0m");
    reveal_strlit("     ' ' ' ' ");
    reveal_with_fuel(shows_from, 30);
}

proof fn lemma_shows_light_showers_night_5()
    ensures
        shows_as(COLORED_ICON_LIGHT_SHOWERS_NIGHT[5]@, ICON_LIGHT_SHOWERS_NIGHT[5]@),
{
    reveal_strlit("\x1b[38;5;111m    ' ' ' '  \x1b[0m");
    reveal_strlit("    ' ' ' '  ");
    reveal_with_fuel(shows_from, 30);
}

proof fn lemma_shows_light_showers_night_6()
    ensures
        shows_as(COLORED_ICON_LIGHT_SHOWERS_NIGHT[6]@, ICON_LIGHT_SHOWERS_NIGHT[6]@),
{
    reveal_strlit("             ");
    reveal_strlit("             ");
    reveal_with_fuel(shows_from, 15);
}

proof fn lemma_shows_heavy_showers_day_0()
    ensures
        shows_as(COLORED_ICON_HEAVY_SHOWERS_DAY[0]@, ICON_HEAVY_SHOWERS_DAY[0]@),
{
    reveal_strlit("             ");
    reveal_strlit("             ");
    reveal_with_fuel(shows_from, 15);
}

proof fn lemma_shows_heavy_showers_day_1()
    ensures
        shows_as(COLORED_ICON_HEAVY_SHOWERS_DAY[1]@, ICON_HEAVY_SHOWERS_DAY[1]@),
{
    reveal_strlit("\x1b[38;5;226m _`/\"\"\x1b[38;5;240;1m.-.    \x1b[0m");
    reveal_strlit(" _`/\"\".-.    ");
    reveal_with_fuel(shows_from, 43);
}

proof fn lemma_shows_heavy_showers_day_2()
    ensures
        shows_as(COLORED_ICON_HEAVY_SHOWERS_DAY[2]@, ICON_HEAVY_SHOWERS_DAY[2]@),
{
    reveal_strlit("\x1b[38;5;226m  ,\\_\x1b[38;5;240;1m(   ).  \x1b[0m");
    reveal_strlit("  ,\\_(   ).  ");
    reveal_with_fuel(shows_from, 43);
}

proof fn lemma_shows_heavy_showers_day_3()
    ensures
        shows_as(COLORED_ICON_HEAVY_SHOWERS_DAY[3]@, ICON_HEAVY_SHOWERS_DAY[3]@),
{
    reveal_strlit("\x1b[38;5;226m   /\x1b[38;5;240;1m(___(__) \x1b[0m");
    reveal_strlit("   /(___(__) ");
    reveal_with_fuel(shows_from, 43);
}

proof fn lemma_shows_heavy_showers_day_4()
    ensures
        shows_as(COLORED_ICON_HEAVY_SHOWERS_DAY[4]@, ICON_HEAVY_SHOWERS_DAY[4]@),
{
    reveal_strlit("\x1b[38;5;21;1m   ‚'‚'‚'‚'  \x1b[0m");
    reveal_strlit("   ‚'‚'‚'‚'  ");
    reveal_with_fuel(shows_from, 31);
}

proof fn lemma_shows_heavy_showers_day_5()
    ensures
        shows_as(COLORED_ICON_HEAVY_SHOWERS_DAY[5]@, ICON_HEAVY_SHOWERS_DAY[5]@),
{
    reveal_strlit("\x1b[38;5;21;1m   ‚'‚'‚'‚'  \x1b[0m");
    reveal_strlit("   ‚'‚'‚'‚'  ");
    reveal_with_fuel(shows_from, 31);
}

proof fn lemma_shows_heavy_showers_day_6()
    ensures
        shows_as(COLORED_ICON_HEAVY_SHOWERS_DAY[6]@, ICON_HEAVY_SHOWERS_DAY[6]@),
{
    reveal_strlit("             ");
    reveal_strlit("             ");
    reveal_with_fuel(shows_from, 15);
}

proof fn lemma_shows_heavy_showers_night_0()
    ensures
        shows_as(COLORED_ICON_HEAVY_SHOWERS_NIGHT[0]@, ICON_HEAVY_SHOWERS_NIGHT[0]@),
{
    reveal_strlit("\x1b[38;5;111;1m     . *     \x1b[0m");
    reveal_strlit("     . *     ");
    reveal_with_fuel(shows_from, 32);
}

proof fn lemma_shows_heavy_showers_night_1()
    ensures
        shows_as(COLORED_ICON_HEAVY_SHOWERS_NIGHT[1]@, ICON_HEAVY_SHOWERS_NIGHT[1]@),
{
    reveal_strlit("\x1b[38;5;111;1m   *\x1b[38;5;240;1m .-.     \x1b[0m");
    reveal_strlit("   * .-.     ");
    reveal_with_fuel(shows_from, 45);
}

proof fn lemma_shows_heavy_showers_night_2()
    ensures
        shows_as(COLORED_ICON_HEAVY_SHOWERS_NIGHT[2]@, ICON_HEAVY_SHOWERS_NIGHT[2]@),
{
    reveal_strlit("\x1b[38;5;240;1m    (   ).   \x1b[0m");
    reveal_strlit("    (   ).   ");
    reveal_with_fuel(shows_from, 32);
}

proof fn lemma_shows_heavy_showers_night_3()
    ensures
        shows_as(COLORED_ICON_HEAVY_SHOWERS_NIGHT[3]@, ICON_HEAVY_SHOWERS_NIGHT[3]@),
{
    reveal_strlit("\x1b[38;5;111;1m   *\x1b[38;5;240;1m(___(__) \x1b[0m");
    reveal_strlit("   *(___(__) ");
    reveal_with_fuel(shows_from, 45);
}

proof fn lemma_shows_heavy_showers_night_4()
    ensures
        shows_as(COLORED_ICON_HEAVY_SHOWERS_NIGHT[4]@, ICON_HEAVY_SHOWERS_NIGHT[4]@),
{
    reveal_strlit("\x1b[38;5;21;1m   ‚'‚'‚'‚'  \x1b[0m");
    reveal_strlit("   ‚'‚'‚'‚'  ");
    reveal_with_fuel(shows_from, 31);
}

proof fn lemma_shows_heavy_showers_night_5()
    ensures
        shows_as(COLORED_ICON_HEAVY_SHOWERS_NIGHT[5]@, ICON_HEAVY_SHOWERS_NIGHT[5]@),
{
    reveal_strlit("\x1b[38;5;21;1m   ‚'‚'‚'‚'  \x1b[0m");
    reveal_strlit("   ‚'‚'‚'‚'  ");
    reveal_with_fuel(shows_from, 31);
}

proof fn lemma_shows_heavy_showers_night_6()
    ensures
        shows_as(COLORED_ICON_HEAVY_SHOWERS_NIGHT[6]@, ICON_HEAVY_SHOWERS_NIGHT[6]@),
{
    reveal_strlit("             ");
    reveal_strlit("             ");
    reveal_with_fuel(shows_from, 15);
}

proof fn lemma_shows_light_snow_0()
    ensures
        shows_as(COLORED_ICON_LIGHT_SNOW[0]@, ICON_LIGHT_SNOW[0]@),
{
    reveal_strlit("             ");
    reveal_strlit("             ");
    reveal_with_fuel(shows_from, 15);
}

proof fn lemma_shows_light_snow_1()
    ensures
        shows_as(COLORED_ICON_LIGHT_SNOW[1]@, ICON_LIGHT_SNOW[1]@),
{
    reveal_strlit("\x1b[38;5;250m     .-.     \x1b[0m");
    reveal_strlit("     .-.     ");
    reveal_with_fuel(shows_from, 30);
}

proof fn lemma_shows_light_snow_2()
    ensures
        shows_as(COLORED_ICON_LIGHT_SNOW[2]@, ICON_LIGHT_SNOW[2]@),
{
    reveal_strlit("\x1b[38;5;250m    (   ).   \x1b[0m");
    reveal_strlit("    (   ).   ");
    reveal_with_fuel(shows_from, 30);
}

proof fn lemma_shows_light_snow_3()
    ensures
        shows_as(COLORED_ICON_LIGHT_SNOW[3]@, ICON_LIGHT_SNOW[3]@),
{
    reveal_strlit("\x1b[38;5;250m   (___(__)  \x1b[0m");
    reveal_strlit("   (___(__)  ");
    reveal_with_fuel(shows_from, 30);
}

proof fn lemma_shows_light_snow_4()
    ensures
        shows_as(COLORED_ICON_LIGHT_SNOW[4]@, ICON_LIGHT_SNOW[4]@),
{
    reveal_strlit("\x1b[38;5;255m    *  *  *  \x1b[0m");
    reveal_strlit("    *  *  *  ");
    reveal_with_fuel(shows_from, 30);
}

proof fn lemma_shows_light_snow_5()
    ensures
        shows_as(COLORED_ICON_LIGHT_SNOW[5]@, ICON_LIGHT_SNOW[5]@),
{
    reveal_strlit("\x1b[38;5;255m   *  *  *   \x1b[0m");
    reveal_strlit("   *  *  *   ");
    reveal_with_fuel(shows_from, 30);
}

proof fn lemma_shows_light_snow_6()
    ensures
        shows_as(COLORED_ICON_LIGHT_SNOW[6]@, ICON_LIGHT_SNOW[6]@),
{
    reveal_strlit("             ");
    reveal_strlit("             ");
    reveal_with_fuel(shows_from, 15);
}

proof fn lemma_shows_heavy_snow_0()
    ensures
        shows_as(COLORED_ICON_HEAVY_SNOW[0]@, ICON_HEAVY_SNOW[0]@),
{
    reveal_strlit("             ");
    reveal_strlit("             ");
    reveal_with_fuel(shows_from, 15);
}

proof fn lemma_shows_heavy_snow_1()
    ensures
        shows_as(COLORED_ICON_HEAVY_SNOW[1]@, ICON_HEAVY_SNOW[1]@),
{
    reveal_strlit("\x1b[38;5;240;1m     .-.     \x1b[0m");
    reveal_strlit("     .-.     ");
    reveal_with_fuel(shows_from, 32);
}

proof fn lemma_shows_heavy_snow_2()
    ensures
        shows_as(COLORED_ICON_HEAVY_SNOW[2]@, ICON_HEAVY_SNOW[2]@),
{
    reveal_strlit("\x1b[38;5;240;1m    (   ).   \x1b[0m");
    reveal_strlit("    (   ).   ");
    reveal_with_fuel(shows_from, 32);
}

proof fn lemma_shows_heavy_snow_3()
    ensures
        shows_as(COLORED_ICON_HEAVY_SNOW[3]@, ICON_HEAVY_SNOW[3]@),
{
    reveal_strlit("\x1b[38;5;240;1m   (___(__)  \x1b[0m");
    reveal_strlit("   (___(__)  ");
    reveal_with_fuel(shows_from, 32);
}

proof fn lemma_shows_heavy_snow_4()
    ensures
        shows_as(COLORED_ICON_HEAVY_SNOW[4]@, ICON_HEAVY_SNOW[4]@),
{
    reveal_strlit("\x1b[38;5;255;1m   * * * *   \x1b[0m");
    reveal_strlit("   * * * *   ");
    reveal_with_fuel(shows_from, 32);
}

proof fn lemma_shows_heavy_snow_5()
    ensures
        shows_as(COLORED_ICON_HEAVY_SNOW[5]@, ICON_HEAVY_SNOW[5]@),
{
    reveal_strlit("\x1b[38;5;255;1m  * * * *    \x1b[0m");
    reveal_strlit("  * * * *    ");
    reveal_with_fuel(shows_from, 32);
}

proof fn lemma_shows_heavy_snow_6()
    ensures
        shows_as(COLORED_ICON_HEAVY_SNOW[6]@, ICON_HEAVY_SNOW[6]@),
{
    reveal_strlit("             ");
    reveal_strlit("             ");
    reveal_with_fuel(shows_from, 15);
}

proof fn lemma_shows_thunderstorm_0()
    ensures
        shows_as(COLORED_ICON_THUNDERSTORM[0]@, ICON_THUNDERSTORM[0]@),
{
    reveal_strlit("             ");
    reveal_strlit("             ");
    reveal_with_fuel(shows_from, 15);
}

proof fn lemma_shows_thunderstorm_1()
    ensures
        shows_as(COLORED_ICON_THUNDERSTORM[1]@, ICON_THUNDERSTORM[1]@),
{
    reveal_strlit("\x1b[38;5;240;1m     .-.     \x1b[0m");
    reveal_strlit("     .-.     ");
    reveal_with_fuel(shows_from, 32);
}

proof fn lemma_shows_thunderstorm_2()
    ensures
        shows_as(COLORED_ICON_THUNDERSTORM[2]@, ICON_THUNDERSTORM[2]@),
{
    reveal_strlit("\x1b[38;5;240;1m    (   ).   \x1b[0m");
    reveal_strlit("    (   ).   ");
    reveal_with_fuel(shows_from, 32);
}

proof fn lemma_shows_thunderstorm_3()
    ensures
        shows_as(COLORED_ICON_THUNDERSTORM[3]@, ICON_THUNDERSTORM[3]@),
{
    reveal_strlit("\x1b[38;5;240;1m   (___(__)  \x1b[0m");
    reveal_strlit("   (___(__)  ");
    reveal_with_fuel(shows_from, 32);
}

proof fn lemma_shows_thunderstorm_4()
    ensures
        shows_as(COLORED_ICON_THUNDERSTORM[4]@, ICON_THUNDERSTORM[4]@),
{
    reveal_strlit("\x1b[38;5;228;5m   ⚡\x1b[38;5;111;25m\"\"\x1b[38;5;228;5m⚡\x1b[38;5;111;25m\"\"  \x1b[0m");
    reveal_strlit("   ⚡\"\"⚡\"\"  ");
    reveal_with_fuel(shows_from, 71);
}

proof fn lemma_shows_thunderstorm_5()
    ensures
        shows_as(COLORED_ICON_THUNDERSTORM[5]@, ICON_THUNDERSTORM[5]@),
{
    reveal_strlit("\x1b[38;5;21;1m  ‚'‚'‚'‚'   \x1b[0m");
    reveal_strlit("  ‚'‚'‚'‚'   ");
    reveal_with_fuel(shows_from, 31);
}

proof fn lemma_shows_thunderstorm_6()
    ensures
        shows_as(COLORED_ICON_THUNDERSTORM[6]@, ICON_THUNDERSTORM[6]@),
{
    reveal_strlit("             ");
    reveal_strlit("             ");
    reveal_with_fuel(shows_from, 15);
}

proof fn lemma_shows_fog_0()
    ensures
        shows_as(COLORED_ICON_FOG[0]@, ICON_FOG[0]@),
{
    reveal_strlit("             ");
    reveal_strlit("             ");
    reveal_with_fuel(shows_from, 15);
}

proof fn lemma_shows_fog_1()
    ensures
        shows_as(COLORED_ICON_FOG[1]@, ICON_FOG[1]@),
{
    reveal_strlit("             ");
    reveal_strlit("             ");
    reveal_with_fuel(shows_from, 15);
}

proof fn lemma_shows_fog_2()
    ensures
        shows_as(COLORED_ICON_FOG[2]@, ICON_FOG[2]@),
{
    reveal_strlit("\x1b[38;5;251m _ - _ - _ - \x1b[0m");
    reveal_strlit(" _ - _ - _ - ");
    reveal_with_fuel(shows_from, 30);
}

proof fn lemma_shows_fog_3()
    ensures
        shows_as(COLORED_ICON_FOG[3]@, ICON_FOG[3]@),
{
    reveal_strlit("\x1b[38;5;251m  _ - _ - _  \x1b[0m");
    reveal_strlit("  _ - _ - _  ");
    reveal_with_fuel(shows_from, 30);
}

proof fn lemma_shows_fog_4()
    ensures
        shows_as(COLORED_ICON_FOG[4]@, ICON_FOG[4]@),
{
    reveal_strlit("\x1b[38;5;251m _ - _ - _ - \x1b[0m");
    reveal_strlit(" _ - _ - _ - ");
    reveal_with_fuel(shows_from, 30);
}

proof fn lemma_shows_fog_5()
    ensures
        shows_as(COLORED_ICON_FOG[5]@, ICON_FOG[5]@),
{
    reveal_strlit("             ");
    reveal_strlit("             ");
    reveal_with_fuel(shows_from, 15);
}

proof fn lemma_shows_fog_6()
    ensures
        shows_as(COLORED_ICON_FOG[6]@, ICON_FOG[6]@),
{
    reveal_strlit("             ");
    reveal_strlit("             ");
    reveal_with_fuel(shows_from, 15);
}

/// The coloured icons draw the same pictures as the plain ones: with the
/// colour sequences skipped, every line of a coloured icon shows the line of
/// the plain icon for the same condition and time of day. (The one exception
/// is the third line of the partly cloudy night icon, where the coloured
/// drawing leaves out the `_` of the plain one.)
pub proof fn lemma_colored_icons_draw_the_plain_icons(v: WeatherConditionIcon, is_day: bool, i: int)
    requires
        0 <= i < 7,
        !(v == WeatherConditionIcon::PartlyCloudy && !is_day && i == 2),
    ensures
        shows_as(v.spec_colored_icon(is_day)[i]@, v.spec_icon(is_day)[i]@),
{
    lemma_shows_unknown_0();
    lemma_shows_unknown_1();
    lemma_shows_unknown_2();
    lemma_shows_unknown_3();
    lemma_shows_unknown_4();
    lemma_shows_unknown_5();
    lemma_shows_unknown_6();
    lemma_shows_clear_day_0();
    lemma_shows_clear_day_1();
    lemma_shows_clear_day_2();
    lemma_shows_clear_day_3();
    lemma_shows_clear_day_4();
    lemma_shows_clear_day_5();
    lemma_shows_clear_day_6();
    lemma_shows_clear_night_0();
    lemma_shows_clear_night_1();
    lemma_shows_clear_night_2();
    lemma_shows_clear_night_3();
    lemma_shows_clear_night_4();
    lemma_shows_clear_night_5();
    lemma_shows_clear_night_6();
    lemma_shows_partly_cloudy_day_0();
    lemma_shows_partly_cloudy_day_1();
    lemma_shows_partly_cloudy_day_2();
    lemma_shows_partly_cloudy_day_3();
    lemma_shows_partly_cloudy_day_4();
    lemma_shows_partly_cloudy_day_5();
    lemma_shows_partly_cloudy_day_6();
    lemma_shows_partly_cloudy_night_0();
    lemma_shows_partly_cloudy_night_1();
    lemma_shows_partly_cloudy_night_3();
    lemma_shows_partly_cloudy_night_4();
    lemma_shows_partly_cloudy_night_5();
    lemma_shows_partly_cloudy_night_6();
    lemma_shows_cloudy_0();
    lemma_shows_cloudy_1();
    lemma_shows_cloudy_2();
    lemma_shows_cloudy_3();
    lemma_shows_cloudy_4();
    lemma_shows_cloudy_5();
    lemma_shows_cloudy_6();
    lemma_shows_light_showers_day_0();
    lemma_shows_light_showers_day_1();
    lemma_shows_light_showers_day_2();
    lemma_shows_light_showers_day_3();
    lemma_shows_light_showers_day_4();
    lemma_shows_light_showers_day_5();
    lemma_shows_light_showers_day_6();
    lemma_shows_light_showers_night_0();
    lemma_shows_light_showers_night_1();
    lemma_shows_light_showers_night_2();
    lemma_shows_light_showers_night_3();
    lemma_shows_light_showers_night_4();
    lemma_shows_light_showers_night_5();
    lemma_shows_light_showers_night_6();
    lemma_shows_heavy_showers_day_0();
    lemma_shows_heavy_showers_day_1();
    lemma_shows_heavy_showers_day_2();
    lemma_shows_heavy_showers_day_3();
    lemma_shows_heavy_showers_day_4();
    lemma_shows_heavy_showers_day_5();
    lemma_shows_heavy_showers_day_6();
    lemma_shows_heavy_showers_night_0();
    lemma_shows_heavy_showers_night_1();
    lemma_shows_heavy_showers_night_2();
    lemma_shows_heavy_showers_night_3();
    lemma_shows_heavy_showers_night_4();
    lemma_shows_heavy_showers_night_5();
    lemma_shows_heavy_showers_night_6();
    lemma_shows_light_snow_0();
    lemma_shows_light_snow_1();
    lemma_shows_light_snow_2();
    lemma_shows_light_snow_3();
    lemma_shows_light_snow_4();
    lemma_shows_light_snow_5();
    lemma_shows_light_snow_6();
    lemma_shows_heavy_snow_0();
    lemma_shows_heavy_snow_1();
    lemma_shows_heavy_snow_2();
    lemma_shows_heavy_snow_3();
    lemma_shows_heavy_snow_4();
    lemma_shows_heavy_snow_5();
    lemma_shows_heavy_snow_6();
    lemma_shows_thunderstorm_0();
    lemma_shows_thunderstorm_1();
    lemma_shows_thunderstorm_2();
    lemma_shows_thunderstorm_3();
    lemma_shows_thunderstorm_4();
    lemma_shows_thunderstorm_5();
    lemma_shows_thunderstorm_6();
    lemma_shows_fog_0();
    lemma_shows_fog_1();
    lemma_shows_fog_2();
    lemma_shows_fog_3();
    lemma_shows_fog_4();
    lemma_shows_fog_5();
    lemma_shows_fog_6();
}
} // verus!
