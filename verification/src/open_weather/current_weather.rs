use vstd::prelude::*;
use super::contracts::{Reading, Temperature, TemperatureScale, Weather};
use super::future_weather::{convert_unix_to_date_time, date_time_error, unix_moment};
use crate::datetime::{is_unix_moment, unix_days_in_range};

verus! {

/// The measured values of the current weather: the temperature (IEEE-754
/// bit pattern of the `f64` degrees).
#[derive(Debug)]
pub struct MainWeather {
    pub temperature_bits: u64,
}

/// The reply of the current-weather service: the measurement and the moment
/// it was taken (a count read as milliseconds since the Unix epoch).
#[derive(Debug)]
pub struct TodayResponse {
    pub main: MainWeather,
    pub date_time_in_unix: i64,
}

/// The weather now: the moment of the reply and its temperature; an error
/// when the count of milliseconds names no moment.
pub fn convert_to_forecast(response: TodayResponse) -> (weather: Result<Weather, String>)
    ensures
        match weather {
            Ok(w) => unix_moment(response.date_time_in_unix as int) == Some(w.date@)
                && w.temperature == Temperature::Value(
                    Reading { bits: response.main.temperature_bits, scale: TemperatureScale::Celsius },
                ),
            Err(e) => unix_moment(response.date_time_in_unix as int) is None && e@ == date_time_error(),
        },
        weather is Ok <==> unix_days_in_range(response.date_time_in_unix as int),
        weather matches Ok(w) ==> is_unix_moment(response.date_time_in_unix as int, w.date@),
        weather matches Ok(w) ==> (w.temperature matches Temperature::Value(r)
            && r.bits == response.main.temperature_bits && r.scale == TemperatureScale::Celsius),
{
    let date_time = match convert_unix_to_date_time(response.date_time_in_unix) {
        Ok(moment) => moment,
        Err(e) => return Err(e),
    };
    Ok(Weather {
        date: date_time,
        temperature: Temperature::Value(
            Reading { bits: response.main.temperature_bits, scale: TemperatureScale::Celsius },
        ),
    })
}

} // verus!
