use vstd::prelude::*;
use crate::errors::RustormyError;
use crate::models::{Language, WeatherConditionIcon};
use crate::numbers::{int_error_text, parse_u16, parse_u32, parse_u8, spec_int_error_text, spec_parse_unsigned, IntErrorKind};
use crate::text::{concat2, owned, spec_trim, trim};

verus! {

/// The World Weather Online weather provider; it needs an API key.
#[derive(Debug, Default, Clone, Copy, PartialEq, Eq)]
pub struct WorldWeatherOnline {}

/// A text of a World Weather Online reply.
#[derive(Debug, Clone)]
pub struct WwoWeatherDesc {
    pub value: String,
}

/// The current conditions of a World Weather Online reply, which gives
/// every value as text.
pub struct WwoCurrentCondition {
    pub temp_c: String,
    pub temp_f: String,
    pub weather_code: String,
    pub weather_desc: Vec<WwoWeatherDesc>,
    pub lang_ru: Vec<WwoWeatherDesc>,
    pub lang_es: Vec<WwoWeatherDesc>,
    pub lang_ko: Vec<WwoWeatherDesc>,
    pub windspeed_miles: String,
    pub windspeed_kmph: String,
    pub winddir_degree: String,
    pub precip_mm: String,
    pub precip_inches: String,
    pub humidity: String,
    pub pressure: String,
    pub feels_like_c: String,
    pub feels_like_f: String,
    pub uv_index: String,
}

/// The error for a value that cannot be read: what the value is, and the
/// reason as `ParseIntError` prints it.
pub open spec fn spec_invalid_value(what: Seq<char>, kind: IntErrorKind) -> Seq<char> {
    "Invalid "@ + what + " value: "@ + spec_int_error_text(kind)
}

fn invalid_value(what: &str, kind: IntErrorKind) -> (r: RustormyError)
    ensures
        r matches RustormyError::ApiReturnedError(m) && m@ == spec_invalid_value(what@, kind),
{
    let mut m = concat2("Invalid ", what);
    m.append(" value: ");
    m.append(int_error_text(kind));
    RustormyError::ApiReturnedError(m)
}

/// Whether `r` is the number `parsed` describes, or the error for `what`
/// when `parsed` is an error.
pub open spec fn read_as<T>(r: Result<T, RustormyError>, parsed: Result<nat, IntErrorKind>, what: Seq<char>, value: spec_fn(T) -> nat) -> bool {
    match parsed {
        Ok(n) => r is Ok && value(r->Ok_0) == n,
        Err(k) => r matches Err(RustormyError::ApiReturnedError(m)) && m@ == spec_invalid_value(what, k),
    }
}

/// The icon drawn for a World Weather Online weather code.
pub open spec fn spec_icon(code: u16) -> WeatherConditionIcon {
    if code == 113 {
        WeatherConditionIcon::Clear
    } else if code == 116 {
        WeatherConditionIcon::PartlyCloudy
    } else if code == 119 || code == 122 {
        WeatherConditionIcon::Cloudy
    } else if code == 143 || code == 248 || code == 260 {
        WeatherConditionIcon::Fog
    } else if code == 176 || code == 263 || code == 266 || code == 281 || code == 284 {
        WeatherConditionIcon::LightShowers
    } else if code == 293 || code == 296 || code == 299 || code == 302 || code == 308 || code == 305
        || code == 353 || code == 356 || code == 359 || code == 311 || code == 314 || code == 317
        || code == 320 || code == 362 || code == 365 || code == 374 || code == 377 {
        WeatherConditionIcon::HeavyShowers
    } else if code == 179 || code == 227 || code == 326 || code == 368 || code == 323 {
        WeatherConditionIcon::LightSnow
    } else if code == 230 || code == 329 || code == 332 || code == 338 || code == 335 || code == 371 {
        WeatherConditionIcon::HeavySnow
    } else if code == 200 || code == 386 || code == 389 || code == 392 || code == 395 {
        WeatherConditionIcon::Thunderstorm
    } else {
        WeatherConditionIcon::Unknown
    }
}

fn code_icon(code: u16) -> (r: WeatherConditionIcon)
    ensures
        r == spec_icon(code),
{
    if code == 113 {
        WeatherConditionIcon::Clear
    } else if code == 116 {
        WeatherConditionIcon::PartlyCloudy
    } else if code == 119 || code == 122 {
        WeatherConditionIcon::Cloudy
    } else if code == 143 || code == 248 || code == 260 {
        WeatherConditionIcon::Fog
    } else if code == 176 || code == 263 || code == 266 || code == 281 || code == 284 {
        WeatherConditionIcon::LightShowers
    } else if code == 293 || code == 296 || code == 299 || code == 302 || code == 308 || code == 305
        || code == 353 || code == 356 || code == 359 || code == 311 || code == 314 || code == 317
        || code == 320 || code == 362 || code == 365 || code == 374 || code == 377 {
        WeatherConditionIcon::HeavyShowers
    } else if code == 179 || code == 227 || code == 326 || code == 368 || code == 323 {
        WeatherConditionIcon::LightSnow
    } else if code == 230 || code == 329 || code == 332 || code == 338 || code == 335 || code == 371 {
        WeatherConditionIcon::HeavySnow
    } else if code == 200 || code == 386 || code == 389 || code == 392 || code == 395 {
        WeatherConditionIcon::Thunderstorm
    } else {
        WeatherConditionIcon::Unknown
    }
}

impl WwoCurrentCondition {
    /// The descriptions given in `lang`.
    pub open spec fn spec_descriptions(&self, lang: Language) -> Seq<WwoWeatherDesc> {
        match lang {
            Language::English => self.weather_desc@,
            Language::Russian => self.lang_ru@,
            Language::Spanish => self.lang_es@,
            Language::Korean => self.lang_ko@,
        }
    }

    /// The first description in `lang`, trimmed; an error when the reply
    /// gives none in that language.
    pub fn desc(&self, language: Language) -> (r: Result<String, RustormyError>)
        ensures
            self.spec_descriptions(language).len() == 0 ==> (r matches Err(RustormyError::ApiReturnedError(m))
                && m@ == "No description available in the requested language"@),
            self.spec_descriptions(language).len() > 0 ==> (r matches Ok(d)
                && d@ == spec_trim(self.spec_descriptions(language)[0].value@)),
    {
        let list = match language {
            Language::English => &self.weather_desc,
            Language::Russian => &self.lang_ru,
            Language::Spanish => &self.lang_es,
            Language::Korean => &self.lang_ko,
        };
        if list.len() == 0 {
            Err(RustormyError::ApiReturnedError(owned("No description available in the requested language")))
        } else {
            Ok(trim(list[0].value.as_str()))
        }
    }

    /// The relative humidity, in percent.
    pub fn humidity(&self) -> (r: Result<u8, RustormyError>)
        ensures
            read_as(r, spec_parse_unsigned(self.humidity@, u8::MAX as nat), "humidity"@, |n: u8| n as nat),
    {
        match parse_u8(self.humidity.as_str()) {
            Ok(n) => Ok(n),
            Err(k) => Err(invalid_value("humidity", k)),
        }
    }

    /// The pressure, in millibars.
    pub fn pressure(&self) -> (r: Result<u32, RustormyError>)
        ensures
            read_as(r, spec_parse_unsigned(self.pressure@, u32::MAX as nat), "pressure"@, |n: u32| n as nat),
    {
        match parse_u32(self.pressure.as_str()) {
            Ok(n) => Ok(n),
            Err(k) => Err(invalid_value("pressure", k)),
        }
    }

    /// The direction the wind blows from, in degrees.
    pub fn wind_direction(&self) -> (r: Result<u16, RustormyError>)
        ensures
            read_as(r, spec_parse_unsigned(self.winddir_degree@, u16::MAX as nat), "wind direction"@, |n: u16| n as nat),
    {
        match parse_u16(self.winddir_degree.as_str()) {
            Ok(n) => Ok(n),
            Err(k) => Err(invalid_value("wind direction", k)),
        }
    }

    /// The icon of the weather code; an error when the code cannot be read.
    pub fn icon(&self) -> (r: Result<WeatherConditionIcon, RustormyError>)
        ensures
            match spec_parse_unsigned(self.weather_code@, u16::MAX as nat) {
                Ok(n) => r == Ok::<WeatherConditionIcon, RustormyError>(spec_icon(n as u16)),
                Err(k) => r matches Err(RustormyError::ApiReturnedError(m)) && m@ == spec_invalid_value("weather code"@, k),
            },
    {
        match parse_u16(self.weather_code.as_str()) {
            Ok(code) => Ok(code_icon(code)),
            Err(k) => Err(invalid_value("weather code", k)),
        }
    }
}

/// The current conditions of a reply: the first ones it lists.
pub fn first_condition(conditions: Vec<WwoCurrentCondition>) -> (r: Result<WwoCurrentCondition, RustormyError>)
    ensures
        conditions@.len() == 0 ==> (r matches Err(RustormyError::ApiReturnedError(m)) && m@ == "No current condition data"@),
        conditions@.len() > 0 ==> r == Ok::<WwoCurrentCondition, RustormyError>(conditions@[0]),
{
    if conditions.len() == 0 {
        Err(RustormyError::ApiReturnedError(owned("No current condition data")))
    } else {
        let mut conditions = conditions;
        Ok(conditions.remove(0))
    }
}

/// The name of the nearest area: its first name, followed by its first
/// country when that is not empty; none when the area has no name.
pub open spec fn spec_area_name(area_name: Seq<WwoWeatherDesc>, country: Seq<WwoWeatherDesc>) -> Option<Seq<char>> {
    if area_name.len() == 0 {
        None
    } else if country.len() == 0 || country[0].value@.len() == 0 {
        Some(area_name[0].value@)
    } else {
        Some(area_name[0].value@ + ", "@ + country[0].value@)
    }
}

pub fn area_name(names: &Vec<WwoWeatherDesc>, country: &Vec<WwoWeatherDesc>) -> (r: Option<String>)
    ensures
        r is None <==> spec_area_name(names@, country@) is None,
        r matches Some(n) ==> spec_area_name(names@, country@) == Some(n@),
{
    if names.len() == 0 {
        None
    } else if country.len() == 0 || country[0].value.as_str().is_empty() {
        Some(owned(names[0].value.as_str()))
    } else {
        let mut r = concat2(names[0].value.as_str(), ", ");
        r.append(country[0].value.as_str());
        Some(r)
    }
}

/// An error message of a refused request.
pub struct WwoErrorMessage {
    pub msg: String,
}

/// The errors of a refused request.
pub struct WwoError {
    pub error: Vec<WwoErrorMessage>,
}

/// The texts joined with `, ` between them.
pub open spec fn spec_join(parts: Seq<Seq<char>>) -> Seq<char>
    decreases parts.len(),
{
    if parts.len() == 0 {
        Seq::empty()
    } else if parts.len() == 1 {
        parts[0]
    } else {
        spec_join(parts.drop_last()) + ", "@ + parts.last()
    }
}

impl WwoError {
    pub open spec fn spec_messages(&self) -> Seq<Seq<char>> {
        self.error@.map_values(|e: WwoErrorMessage| e.msg@)
    }

    /// All the messages, joined with `, `.
    pub fn get_message(&self) -> (r: String)
        ensures
            r@ == spec_join(self.spec_messages()),
    {
        let mut r = String::new();
        let mut i: usize = 0;
        while i < self.error.len()
            invariant
                i <= self.error@.len(),
                r@ == spec_join(self.spec_messages().take(i as int)),
            decreases self.error@.len() - i,
        {
            let ghost before = self.spec_messages().take(i as int);
            let ghost after = self.spec_messages().take(i + 1);
            assert(after.drop_last() =~= before);
            if i > 0 {
                r.append(", ");
            } else {
                assert(before.len() == 0);
            }
            r.append(self.error[i].msg.as_str());
            i += 1;
        }
        assert(self.spec_messages().take(self.error@.len() as int) =~= self.spec_messages());
        r
    }
}

} // verus!
