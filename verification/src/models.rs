use vstd::prelude::*;

verus! {

/// Weather data providers, tried in the order the configuration lists them.
#[derive(Debug, Clone, Copy, PartialEq, Eq, Structural)]
pub enum Provider {
    OpenMeteo,
    OpenWeatherMap,
    WorldWeatherOnline,
    WeatherApi,
    WeatherBit,
    TomorrowIo,
    Yr,
}

impl Provider {
    /// Whether requests to this provider must carry an API key.
    pub open spec fn spec_needs_api_key(self) -> bool {
        match self {
            Provider::OpenMeteo | Provider::Yr => false,
            _ => true,
        }
    }
}

/// The default provider is Open-Meteo, which needs no key.
impl Default for Provider {
    fn default() -> (p: Provider)
        ensures
            p == Provider::OpenMeteo,
    {
        Provider::OpenMeteo
    }
}

} // verus!

verus! {

/// Languages of the report text.
#[derive(Debug, Clone, Copy, PartialEq, Eq, Structural)]
pub enum Language {
    English,
    Russian,
    Spanish,
    Korean,
}

impl Language {
    /// The column of the translation table that holds this language.
    pub open spec fn spec_column(self) -> int {
        match self {
            Language::English => 1,
            Language::Russian => 2,
            Language::Spanish => 3,
            Language::Korean => 4,
        }
    }

    /// The language code sent to the providers' APIs.
    pub open spec fn spec_code(self) -> Seq<char> {
        match self {
            Language::English => "en"@,
            Language::Russian => "ru"@,
            Language::Spanish => "es"@,
            Language::Korean => "ko"@,
        }
    }

    pub fn code(self) -> (r: &'static str)
        ensures
            r@ == self.spec_code(),
    {
        match self {
            Language::English => "en",
            Language::Russian => "ru",
            Language::Spanish => "es",
            Language::Korean => "ko",
        }
    }

    pub fn column(self) -> (c: usize)
        ensures
            c == self.spec_column(),
    {
        match self {
            Language::English => 1,
            Language::Russian => 2,
            Language::Spanish => 3,
            Language::Korean => 4,
        }
    }
}

} // verus!

verus! {

/// Units of the reported values.
#[derive(Debug, Clone, Copy, PartialEq, Eq, Structural)]
pub enum Units {
    Metric,
    Imperial,
}

impl Units {
    pub open spec fn spec_name(self) -> Seq<char> {
        match self {
            Units::Metric => "metric"@,
            Units::Imperial => "imperial"@,
        }
    }

    /// The lower-case name of the unit system, as written in the
    /// configuration file.
    pub fn name(self) -> (r: &'static str)
        ensures
            r@ == self.spec_name(),
    {
        match self {
            Units::Metric => "metric",
            Units::Imperial => "imperial",
        }
    }
}

/// How the report is printed.
#[derive(Debug, Clone, Copy, PartialEq, Eq, Structural)]
pub enum OutputFormat {
    Text,
    Json,
}

/// Layout of the text report.
#[derive(Debug, Clone, Copy, PartialEq, Eq, Structural)]
pub enum TextMode {
    Full,
    Compact,
    OneLine,
}

/// The weather condition, as drawn by the icons.
#[derive(Debug, Clone, Copy, PartialEq, Eq, Structural)]
pub enum WeatherConditionIcon {
    Unknown,
    Clear,
    PartlyCloudy,
    Cloudy,
    LightShowers,
    HeavyShowers,
    LightSnow,
    HeavySnow,
    Thunderstorm,
    Fog,
}

/// Terminal colours, by their SGR foreground code.
#[derive(Debug, Clone, Copy, PartialEq, Eq, Structural)]
pub enum AnsiColor {
    Black,
    Red,
    Green,
    Yellow,
    Blue,
    Magenta,
    Cyan,
    White,
    BrightBlack,
    BrightRed,
    BrightGreen,
    BrightYellow,
    BrightBlue,
    BrightMagenta,
    BrightCyan,
    BrightWhite,
}

impl AnsiColor {
    /// The SGR parameter that selects this colour as foreground.
    pub open spec fn spec_code(self) -> Seq<char> {
        match self {
            AnsiColor::Black => "30"@,
            AnsiColor::Red => "31"@,
            AnsiColor::Green => "32"@,
            AnsiColor::Yellow => "33"@,
            AnsiColor::Blue => "34"@,
            AnsiColor::Magenta => "35"@,
            AnsiColor::Cyan => "36"@,
            AnsiColor::White => "37"@,
            AnsiColor::BrightBlack => "90"@,
            AnsiColor::BrightRed => "91"@,
            AnsiColor::BrightGreen => "92"@,
            AnsiColor::BrightYellow => "93"@,
            AnsiColor::BrightBlue => "94"@,
            AnsiColor::BrightMagenta => "95"@,
            AnsiColor::BrightCyan => "96"@,
            AnsiColor::BrightWhite => "97"@,
        }
    }

    pub fn code(self) -> (r: &'static str)
        ensures
            r@ == self.spec_code(),
    {
        match self {
            AnsiColor::Black => "30",
            AnsiColor::Red => "31",
            AnsiColor::Green => "32",
            AnsiColor::Yellow => "33",
            AnsiColor::Blue => "34",
            AnsiColor::Magenta => "35",
            AnsiColor::Cyan => "36",
            AnsiColor::White => "37",
            AnsiColor::BrightBlack => "90",
            AnsiColor::BrightRed => "91",
            AnsiColor::BrightGreen => "92",
            AnsiColor::BrightYellow => "93",
            AnsiColor::BrightBlue => "94",
            AnsiColor::BrightMagenta => "95",
            AnsiColor::BrightCyan => "96",
            AnsiColor::BrightWhite => "97",
        }
    }
}

} // verus!

verus! {

impl Default for Language {
    fn default() -> (r: Language)
        ensures
            r == Language::English,
    {
        Language::English
    }
}

impl Default for Units {
    fn default() -> (r: Units)
        ensures
            r == Units::Metric,
    {
        Units::Metric
    }
}

impl Default for OutputFormat {
    fn default() -> (r: OutputFormat)
        ensures
            r == OutputFormat::Text,
    {
        OutputFormat::Text
    }
}

impl Default for TextMode {
    fn default() -> (r: TextMode)
        ensures
            r == TextMode::Full,
    {
        TextMode::Full
    }
}

} // verus!

verus! {

/// A latitude or longitude in degrees, held as the bit pattern of its
/// IEEE 754 binary64 value (what `f64::to_bits` gives).
#[derive(Debug, Clone, Copy, PartialEq, Eq, Structural)]
pub struct Degrees {
    pub bits: u64,
}

/// The bit pattern of 90.0.
pub const LATITUDE_LIMIT_BITS: u64 = 0x4056_8000_0000_0000;
/// The bit pattern of 180.0.
pub const LONGITUDE_LIMIT_BITS: u64 = 0x4066_8000_0000_0000;

impl Degrees {
    /// The magnitude bits: the pattern of the absolute value.
    pub open spec fn spec_magnitude(self) -> u64 {
        self.bits & 0x7FFF_FFFF_FFFF_FFFF
    }

    /// Whether `-limit <= self <= limit`, for the non-negative finite value
    /// whose bit pattern is `limit_bits`. Among binary64 values that are not
    /// NaN, the order of absolute values is the order of magnitude bits, and
    /// every NaN has larger magnitude bits than infinity, so the test is false
    /// for NaN as the float comparison is.
    pub open spec fn spec_within(self, limit_bits: u64) -> bool {
        self.spec_magnitude() <= limit_bits
    }

    pub fn within(self, limit_bits: u64) -> (r: bool)
        ensures
            r == self.spec_within(limit_bits),
    {
        (self.bits & 0x7FFF_FFFF_FFFF_FFFF) <= limit_bits
    }
}

} // verus!

verus! {

/// A place: the name shown in the report and its coordinates.
#[derive(Debug, Clone)]
pub struct Location {
    pub name: String,
    pub latitude: Degrees,
    pub longitude: Degrees,
}

} // verus!
