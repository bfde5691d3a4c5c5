use vstd::prelude::*;
use vstd::string::*;
use crate::datetime::{naive_date_display, CalendarDate, DateTimeValue};
use super::contracts::{Reading, Temperature as WeatherTemperature, TemperatureScale, Weather};

verus! {

/// A temperature as the forecast gives it: the number (IEEE-754 bit pattern
/// of the `f64`) and the code of its unit (17 Celsius, 18 Fahrenheit).
#[derive(Debug)]
pub struct TemperatureValue {
    pub value_bits: u64,
    pub unit_type: i32,
}

/// The lowest and highest temperature of a day.
#[derive(Debug)]
pub struct Temperature {
    pub min_value: TemperatureValue,
    pub max_value: TemperatureValue,
}

/// The forecast for one day: its moment and its temperatures.
#[derive(Debug)]
pub struct DailyForecast {
    pub date: DateTimeValue,
    pub temperature: Temperature,
}

/// The forecasts for the days to come.
#[derive(Debug)]
pub struct DailyForecasts {
    pub array: Vec<DailyForecast>,
}

/// The reply of the daily forecast service.
#[derive(Debug)]
pub struct AccueWeatherResponse {
    pub daily_forecasts: DailyForecasts,
}

/// The unit code of degrees Celsius.
pub const CELSIUS_UNIT: i32 = 17;

/// The unit code of degrees Fahrenheit.
pub const FAHRENHEIT_UNIT: i32 = 18;

/// The error of an unknown unit code.
pub open spec fn unit_error() -> Seq<char> {
    "Incorrect unit_type for temperature. Required 17 or 18"@
}

/// The error when no forecast is for the day.
pub open spec fn missing_day_error(day: CalendarDate) -> Seq<char> {
    "Couldn't found a forecast for day "@ + naive_date_display(day@)
}

/// The reading a temperature value stands for, where its unit code is known.
pub open spec fn reading_of(value: TemperatureValue) -> Option<Reading> {
    if value.unit_type == CELSIUS_UNIT {
        Some(Reading { bits: value.value_bits, scale: TemperatureScale::Celsius })
    } else if value.unit_type == FAHRENHEIT_UNIT {
        Some(Reading { bits: value.value_bits, scale: TemperatureScale::Fahrenheit })
    } else {
        None
    }
}

/// Whether a number is one of the two unit codes, 17 (Celsius) and 18
/// (Fahrenheit).
pub open spec fn is_unit_code(unit_type: i32) -> bool {
    unit_type == 17 || unit_type == 18
}

/// Whether a daily forecast is for the given day.
pub open spec fn is_forecast_for(daily: DailyForecast, day: CalendarDate) -> bool {
    daily.date@.date == day@
}

/// The weather made from a daily forecast whose units are both known.
pub open spec fn is_weather_of(weather: Weather, daily: DailyForecast) -> bool {
    &&& weather.date == daily.date
    &&& reading_of(daily.temperature.min_value) matches Some(min)
    &&& reading_of(daily.temperature.max_value) matches Some(max)
    &&& weather.temperature == WeatherTemperature::Range { min, max }
}

/// The address of the five-day forecast request for a location key, in
/// British English.
pub open spec fn forecast_url_text(location_id: Seq<char>, api_key: Seq<char>) -> Seq<char> {
    "http://dataservice.accuweather.com/forecasts/v1/daily/5day/"@ + location_id + "?apikey="@ + api_key
        + "&language=en-gb"@
}

/// The address of the five-day forecast request for a location key.
pub fn forecast_url(location_id: &str, api_key: &str) -> (url: String)
    ensures
        url@ == forecast_url_text(location_id@, api_key@),
{
    let mut url = "http://dataservice.accuweather.com/forecasts/v1/daily/5day/".to_string();
    url.append(location_id);
    url.append("?apikey=");
    url.append(api_key);
    url.append("&language=en-gb");
    url
}

/// The weather of the first forecast that is for `day`; an error when none
/// is, or when its units are not known.
pub fn convert_to_forecast(response: AccueWeatherResponse, day: CalendarDate) -> (weather: Result<Weather, String>)
    ensures
        weather matches Ok(w) ==> w.date@.date == day@,
        match weather {
            Ok(w) => exists|i: int|
                0 <= i < response.daily_forecasts.array@.len()
                && #[trigger] is_forecast_for(response.daily_forecasts.array@[i], day)
                && (forall|j: int| 0 <= j < i
                    ==> !is_forecast_for(#[trigger] response.daily_forecasts.array@[j], day))
                && is_weather_of(w, response.daily_forecasts.array@[i]),
            Err(e) => {
                ||| (forall|i: int| 0 <= i < response.daily_forecasts.array@.len()
                    ==> !is_forecast_for(#[trigger] response.daily_forecasts.array@[i], day))
                    && e@ == missing_day_error(day)
                ||| exists|i: int|
                    0 <= i < response.daily_forecasts.array@.len()
                    && #[trigger] is_forecast_for(response.daily_forecasts.array@[i], day)
                    && (forall|j: int| 0 <= j < i
                        ==> !is_forecast_for(#[trigger] response.daily_forecasts.array@[j], day))
                    && unit_failure(response.daily_forecasts.array@[i], e@)
            },
        },
        (exists|i: int| 0 <= i < response.daily_forecasts.array@.len()
            && (#[trigger] response.daily_forecasts.array@[i]).date@.date == day@)
            ==> (weather matches Err(e) ==> e@ == unit_error()),
        weather matches Ok(w) ==> exists|i: int|
            0 <= i < response.daily_forecasts.array@.len()
            && (#[trigger] response.daily_forecasts.array@[i]).date@.date == day@
            && (forall|j: int| 0 <= j < i ==> response.daily_forecasts.array@[j].date@.date != day@)
            && w.date == response.daily_forecasts.array@[i].date
            && (w.temperature matches WeatherTemperature::Range { min, max }
                && min.bits == response.daily_forecasts.array@[i].temperature.min_value.value_bits
                && max.bits == response.daily_forecasts.array@[i].temperature.max_value.value_bits
                && (min.scale == TemperatureScale::Celsius
                    <==> response.daily_forecasts.array@[i].temperature.min_value.unit_type == 17)
                && (max.scale == TemperatureScale::Celsius
                    <==> response.daily_forecasts.array@[i].temperature.max_value.unit_type == 17)),
{
    let ghost days = response.daily_forecasts.array@;
    for daily in it: response.daily_forecasts.array
        invariant
            it.seq() == days,
            forall|j: int| 0 <= j < it.index() ==> !is_forecast_for(#[trigger] days[j], day),
    {
        let ghost index = it.index();
        assert(daily == days[index]);
        if daily.date.date().same_day(&day) {
            assert(is_forecast_for(days[index], day));
            return convert_daily_forecast_to_forecast(daily);
        }
    }
    let mut message = "Couldn't found a forecast for day ".to_string();
    message.append(day.to_string().as_str());
    Err(message)
}

/// Whether converting a daily forecast fails with `error`: the lowest
/// temperature's unit is unknown, or it is known and the highest's is not.
pub open spec fn unit_failure(daily: DailyForecast, error: Seq<char>) -> bool {
    &&& (reading_of(daily.temperature.min_value) is None
        || reading_of(daily.temperature.max_value) is None)
    &&& error == unit_error()
}

/// The weather of one daily forecast; an error when a unit code is unknown.
pub fn convert_daily_forecast_to_forecast(daily: DailyForecast) -> (weather: Result<Weather, String>)
    ensures
        match weather {
            Ok(w) => is_weather_of(w, daily),
            Err(e) => unit_failure(daily, e@),
        },
        weather is Ok <==> (is_unit_code(daily.temperature.min_value.unit_type)
            && is_unit_code(daily.temperature.max_value.unit_type)),
        weather matches Ok(w) ==> w.date == daily.date,
        weather matches Ok(w) ==> (w.temperature matches WeatherTemperature::Range { min, max }
            && min.bits == daily.temperature.min_value.value_bits
            && max.bits == daily.temperature.max_value.value_bits
            && (min.scale == TemperatureScale::Celsius <==> daily.temperature.min_value.unit_type == 17)
            && (max.scale == TemperatureScale::Celsius <==> daily.temperature.max_value.unit_type == 17)),
        weather matches Err(e) ==> e@ == unit_error(),
{
    let min_temp = match match_temperature(&daily.temperature.min_value) {
        Ok(reading) => reading,
        Err(e) => return Err(e),
    };
    let max_temp = match match_temperature(&daily.temperature.max_value) {
        Ok(reading) => reading,
        Err(e) => return Err(e),
    };
    Ok(Weather { date: daily.date, temperature: WeatherTemperature::Range { min: min_temp, max: max_temp } })
}

/// The reading of a temperature value: its number in the scale its unit
/// code names; an error for a code other than 17 and 18.
pub fn match_temperature(val: &TemperatureValue) -> (reading: Result<Reading, String>)
    ensures
        match reading {
            Ok(r) => reading_of(*val) == Some(r),
            Err(e) => reading_of(*val) is None && e@ == unit_error(),
        },
        reading is Ok <==> is_unit_code(val.unit_type),
        reading matches Ok(r) ==> r.bits == val.value_bits,
        reading matches Ok(r) ==> (r.scale == TemperatureScale::Celsius <==> val.unit_type == 17),
        reading matches Ok(r) ==> (r.scale == TemperatureScale::Fahrenheit <==> val.unit_type == 18),
{
    if val.unit_type == CELSIUS_UNIT {
        Ok(Reading { bits: val.value_bits, scale: TemperatureScale::Celsius })
    } else if val.unit_type == FAHRENHEIT_UNIT {
        Ok(Reading { bits: val.value_bits, scale: TemperatureScale::Fahrenheit })
    } else {
        Err("Incorrect unit_type for temperature. Required 17 or 18".to_string())
    }
}

/// A value with a known unit code is read as the same number it carries,
/// in the scale its code names; other codes are not read.
pub proof fn law_reading_keeps_number(value: TemperatureValue)
    ensures
        reading_of(value) is Some <==> is_unit_code(value.unit_type),
        reading_of(value) matches Some(r) ==> r.bits == value.value_bits,
        reading_of(value) matches Some(r) ==> (r.scale == TemperatureScale::Celsius
            <==> value.unit_type == 17),
        reading_of(value) matches Some(r) ==> (r.scale == TemperatureScale::Fahrenheit
            <==> value.unit_type == 18),
{
}

/// A forecast is for a day exactly when its moment falls on that day,
/// whatever the time of day.
pub proof fn law_forecast_for_any_time_of_day(daily: DailyForecast, day: CalendarDate)
    ensures
        is_forecast_for(daily, day) <==> daily.date@.date == day@,
{
}

/// The weather made from a daily forecast keeps its moment, and its lowest
/// and highest temperature with their numbers unchanged.
pub proof fn law_weather_keeps_forecast(weather: Weather, daily: DailyForecast)
    requires
        is_weather_of(weather, daily),
    ensures
        weather.date == daily.date,
        (weather.temperature matches WeatherTemperature::Range { min, max }
            && min.bits == daily.temperature.min_value.value_bits
            && max.bits == daily.temperature.max_value.value_bits),
{
}

/// The forecast request ends with "&language=en-gb", the key stands right
/// before it, and the location key before "?apikey=" and the key.
pub proof fn law_forecast_url_parts(location_id: Seq<char>, api_key: Seq<char>)
    ensures
        ({
            let url = forecast_url_text(location_id, api_key);
            &&& url.subrange(url.len() - 15, url.len() as int) == "&language=en-gb"@
            &&& url.subrange(url.len() - 15 - api_key.len(), url.len() - 15) == api_key
            &&& url.subrange(url.len() - 23 - api_key.len() - location_id.len(), url.len() - 23 - api_key.len())
                == location_id
        }),
{
    reveal_strlit("&language=en-gb");
    reveal_strlit("?apikey=");
    let url = forecast_url_text(location_id, api_key);
    assert(url.subrange(url.len() - 15, url.len() as int) =~= "&language=en-gb"@);
    assert(url.subrange(url.len() - 15 - api_key.len(), url.len() - 15) =~= api_key);
    assert(url.subrange(url.len() - 23 - api_key.len() - location_id.len(), url.len() - 23 - api_key.len())
        =~= location_id);
}

} // verus!
