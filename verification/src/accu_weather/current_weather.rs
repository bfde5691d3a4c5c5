use vstd::prelude::*;
use crate::datetime::DateTimeValue;
use super::contracts::{Reading, Temperature as WeatherTemperature, TemperatureScale, Weather};

verus! {

/// A temperature in degrees Celsius (IEEE-754 bit pattern of the `f64`).
#[derive(Debug)]
pub struct MetricTemperature {
    pub value_bits: u64,
}

/// The temperatures of an observation, in metric units.
#[derive(Debug)]
pub struct Temperature {
    pub metric: MetricTemperature,
}

/// An observation: its local moment and its temperature.
#[derive(Debug)]
pub struct DailyForecast {
    pub date: DateTimeValue,
    pub temperature: Temperature,
}

/// The reply of the current-conditions service: a list of observations.
#[derive(Debug)]
pub struct TodayResponse {
    pub array: Vec<DailyForecast>,
}

/// The error when the reply holds no observation.
pub open spec fn no_observation_error() -> Seq<char> {
    "Couldn't found a forecast for that day"@
}

/// The weather made from an observation.
pub open spec fn is_weather_of(weather: Weather, daily: DailyForecast) -> bool {
    &&& weather.date == daily.date
    &&& weather.temperature == WeatherTemperature::Value(
        Reading { bits: daily.temperature.metric.value_bits, scale: TemperatureScale::Celsius },
    )
}

/// The address of the current-conditions request for a location key.
pub open spec fn today_url_text(location_id: Seq<char>, api_key: Seq<char>) -> Seq<char> {
    "http://dataservice.accuweather.com/currentconditions/v1/"@ + location_id + "?apikey="@ + api_key
}

/// The address of the current-conditions request for a location key.
pub fn today_url(location_id: &str, api_key: &str) -> (url: String)
    ensures
        url@ == today_url_text(location_id@, api_key@),
{
    let mut url = "http://dataservice.accuweather.com/currentconditions/v1/".to_string();
    url.append(location_id);
    url.append("?apikey=");
    url.append(api_key);
    url
}

/// The weather of the first observation; an error when there is none.
pub fn convert_to_forecast(response: TodayResponse) -> (weather: Result<Weather, String>)
    ensures
        match weather {
            Ok(w) => response.array@.len() > 0 && is_weather_of(w, response.array@[0]),
            Err(e) => response.array@.len() == 0 && e@ == no_observation_error(),
        },
        weather is Ok <==> response.array@.len() > 0,
        weather matches Ok(w) ==> w.date == response.array@[0].date,
        weather matches Ok(w) ==> (w.temperature matches WeatherTemperature::Value(r)
            && r.bits == response.array@[0].temperature.metric.value_bits
            && r.scale == TemperatureScale::Celsius),
{
    let mut array = response.array;
    if array.len() == 0 {
        Err("Couldn't found a forecast for that day".to_string())
    } else {
        let first = array.remove(0);
        Ok(convert_daily_forecast_to_weather(first))
    }
}

/// The weather of one observation.
pub fn convert_daily_forecast_to_weather(daily: DailyForecast) -> (weather: Weather)
    ensures
        is_weather_of(weather, daily),
        weather.date == daily.date,
        weather.temperature matches WeatherTemperature::Value(r)
            && r.bits == daily.temperature.metric.value_bits && r.scale == TemperatureScale::Celsius,
{
    Weather {
        date: daily.date,
        temperature: WeatherTemperature::Value(
            Reading { bits: daily.temperature.metric.value_bits, scale: TemperatureScale::Celsius },
        ),
    }
}

/// The weather made from an observation keeps its moment, and its
/// temperature as the same number in degrees Celsius.
pub proof fn law_weather_keeps_observation(weather: Weather, daily: DailyForecast)
    requires
        is_weather_of(weather, daily),
    ensures
        weather.date == daily.date,
        (weather.temperature matches WeatherTemperature::Value(r)
            && r.bits == daily.temperature.metric.value_bits && r.scale == TemperatureScale::Celsius),
{
}

/// The current-conditions request ends with the key, after "?apikey=", and
/// the location key stands right before that.
pub proof fn law_today_url_parts(location_id: Seq<char>, api_key: Seq<char>)
    ensures
        ({
            let url = today_url_text(location_id, api_key);
            &&& url.subrange(url.len() - api_key.len(), url.len() as int) == api_key
            &&& url.subrange(url.len() - api_key.len() - 8 - location_id.len(), url.len() - api_key.len() - 8)
                == location_id
        }),
{
    reveal_strlit("?apikey=");
    let url = today_url_text(location_id, api_key);
    assert(url.subrange(url.len() - api_key.len(), url.len() as int) =~= api_key);
    assert(url.subrange(url.len() - api_key.len() - 8 - location_id.len(), url.len() - api_key.len() - 8)
        =~= location_id);
}

} // verus!
