use vstd::prelude::*;
use crate::models::Language;
use crate::text::str_eq;

verus! {

/// Rows of the translation table: the key, then its text in English,
/// Russian, Spanish and Korean.
pub const TRANSLATIONS: [[&'static str; 5]; 58] = [
    ["Location", "Location", "Локация", "Ubicación", "위치"],
    ["Temperature", "Temperature", "Температура", "Temperatura", "온도"],
    ["Condition", "Condition", "Погода", "Condición", "상태"],
    ["Wind", "Wind", "Ветер", "Viento", "바람"],
    ["Humidity", "Humidity", "Влажность", "Humedad", "습도"],
    ["Precipitation", "Precip", "Осадки", "Lluvias", "강수량"],
    ["Pressure", "Pressure", "Давление", "Presión", "기압"],
    ["UV index", "UV index", "УФ индекс", "Índice UV", "자외선 지수"],
    ["dew point", "dew point", "точка росы", "punto de rocío", "이슬점"],
    ["Clear", "Clear", "Ясно", "Despejado", "맑음"],
    ["Mostly clear", "Mostly clear", "Легкая облачность", "Mayormente despejado", "대체로 맑음"],
    ["Partly cloudy", "Partly cloudy", "Переменная облачность", "Parcialmente nublado", "부분적으로 흐림"],
    ["Mostly cloudy", "Mostly cloudy", "Сильная облачность", "Mayormente nublado", "대체로 흐림"],
    ["Overcast", "Overcast", "Пасмурно", "Nublado", "흐림"],
    ["Cloudy", "Cloudy", "Облачно", "Nublado", "흐림"],
    ["Fog", "Fog", "Туман", "Niebla", "안개"],
    ["Light fog", "Light fog", "Легкий туман", "Niebla ligera", "옅은 안개"],
    ["Depositing rime fog", "Depositing rime fog", "Изморозь", "Niebla con escarcha", "서리 안개"],
    ["Drizzle", "Drizzle", "Морось", "Llovizna", "이슬비"],
    ["Light drizzle", "Light drizzle", "Легкая морось", "Llovizna ligera", "약한 이슬비"],
    ["Moderate drizzle", "Moderate drizzle", "Умеренная морось", "Llovizna moderada", "보통 이슬비"],
    ["Dense drizzle", "Dense drizzle", "Сильная морось", "Llovizna intensa", "짙은 이슬비"],
    ["Freezing drizzle", "Freezing drizzle", "Ледяная морось", "Llovizna helada", "얼음 이슬비"],
    ["Light freezing drizzle", "Light freezing drizzle", "Слабая ледяная морось", "Llovizna helada ligera", "약한 얼음 이슬비"],
    ["Dense freezing drizzle", "Dense freezing drizzle", "Сильная ледяная морось", "Llovizna helada intensa", "짙은 얼음 이슬비"],
    ["Rain", "Rain", "Дождь", "Lluvia", "비"],
    ["Light rain", "Light rain", "Небольшой дождь", "Lluvia ligera", "약한 비"],
    ["Moderate rain", "Moderate rain", "Умеренный дождь", "Lluvia moderada", "보통 비"],
    ["Heavy rain", "Heavy rain", "Сильный дождь", "Lluvia intensa", "강한 비"],
    ["Freezing rain", "Freezing rain", "Ледяной дождь", "Lluvia helada", "얼음 비"],
    ["Light freezing rain", "Light freezing rain", "Слабый ледяной дождь", "Lluvia helada ligera", "약한 얼음 비"],
    ["Heavy freezing rain", "Heavy freezing rain", "Сильный ледяной дождь", "Lluvia helada intensa", "강한 얼음 비"],
    ["Snow", "Snow", "Снег", "Nevada", "눈"],
    ["Slight snow fall", "Slight snow fall", "Небольшой снег", "Nevada ligera", "약한 눈"],
    ["Moderate snow fall", "Moderate snow fall", "Умеренный снег", "Nevada moderada", "보통 눈"],
    ["Heavy snow fall", "Heavy snow fall", "Сильный снегопад", "Nevada intensa", "강한 눈"],
    ["Flurries", "Flurries", "Поземок", "Chubascos de nieve", "눈보라"],
    ["Snow grains", "Snow grains", "Снежная крупа", "Granos de nieve", "눈 알갱이"],
    ["Ice pellets", "Ice pellets", "Град", "Granizo", "우박"],
    ["Light ice pellets", "Light ice pellets", "Небольшой град", "Granizo ligero", "약한 우박"],
    ["Heavy ice pellets", "Heavy ice pellets", "Сильный град", "Granizo intenso", "강한 우박"],
    ["Slight rain showers", "Slight rain showers", "Небольшой ливень", "Chubascos ligeros", "약한 소나기"],
    ["Moderate rain showers", "Moderate rain showers", "Умеренный ливень", "Chubascos moderados", "보통 소나기"],
    ["Violent rain showers", "Violent rain showers", "Сильный ливень", "Chubascos intensos", "강한 소나기"],
    ["Light snow", "Light snow", "Небольшой снег", "Nieve ligera", "약한 눈"],
    ["Heavy snow", "Heavy snow", "Сильный снег", "Nieve intensa", "강한 눈"],
    ["Slight snow showers", "Slight snow showers", "Небольшой снежный ливень", "Chubascos de nieve ligeros", "약한 눈 소나기"],
    ["Heavy snow showers", "Heavy snow showers", "Сильный снежный ливень", "Chubascos de nieve intensos", "강한 눈 소나기"],
    ["Thunderstorm", "Thunderstorm", "Гроза", "Tormenta", "뇌우"],
    ["Thunderstorm with slight hail", "Thunderstorm with slight hail", "Гроза с небольшим градом", "Tormenta con granizo ligero", "약한 우박을 동반한 뇌우"],
    ["Thunderstorm with heavy hail", "Thunderstorm with heavy hail", "Гроза с сильным градом", "Tormenta con granizo intenso", "강한 우박을 동반한 뇌우"],
    ["Unknown", "Unknown", "Неизвестно", "Desconocido", "알 수 없음"],
    ["feels like", "feels like", "ощущается как", "se siente como", "체감 온도"],
    ["mph", "mph", "миль/ч", "mph", "mph"],
    ["m/s", "m/s", "м/с", "m/s", "m/s"],
    ["mm", "mm", "мм", "mm", "mm"],
    ["inch", "inch", "дюйм", "pulgada", "인치"],
    ["hPa", "hPa", "гПа", "hPa", "hPa"],
];

pub open spec fn lookup(rows: Seq<[&'static str; 5]>, col: int, key: Seq<char>) -> Seq<char>
    decreases rows.len(),
{
    if rows.len() == 0 {
        key
    } else if rows[0][0]@ == key {
        rows[0][col]@
    } else {
        lookup(rows.drop_first(), col, key)
    }
}

pub fn ll(lang: Language, key: &'static str) -> (r: &'static str)
    ensures
        r@ == lookup(TRANSLATIONS@, lang.spec_column(), key@),
{
    let col = lang.column();
    let mut i: usize = 0;
    assert(TRANSLATIONS@.skip(0) == TRANSLATIONS@);
    while i < TRANSLATIONS.len()
        invariant
            0 <= i <= TRANSLATIONS@.len(),
            col == lang.spec_column(),
            lookup(TRANSLATIONS@, col as int, key@) == lookup(TRANSLATIONS@.skip(i as int), col as int, key@),
        decreases TRANSLATIONS@.len() - i,
    {
        let row = TRANSLATIONS[i];
        assert(TRANSLATIONS@.skip(i as int).drop_first() == TRANSLATIONS@.skip(i + 1));
        if str_eq(row[0], key) {
            return row[col];
        }
        i += 1;
    }
    assert(TRANSLATIONS@.skip(i as int).len() == 0);
    key
}

} // verus!
