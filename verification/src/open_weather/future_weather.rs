use vstd::prelude::*;
use vstd::string::*;
use crate::datetime::{
    days_since_epoch, is_unix_moment, lemma_days_since_epoch_injective, naive_date_display, unix_days,
    unix_days_in_range, utc_millis_to_parts, utc_moment_of_millis, CalendarDate, DateModel,
    DateTimeModel, DateTimeValue,
};
use super::contracts::{Reading, TemperatureScale, Weather};

verus! {

/// The lowest and highest temperature of a day, in degrees Celsius (the
/// IEEE-754 bit patterns of the `f64` numbers).
#[derive(Debug)]
pub struct Temperature {
    pub min_bits: u64,
    pub max_bits: u64,
}

/// The forecast for one day: the moment it is for (a count that the service
/// calls seconds and that is read as milliseconds since the Unix epoch) and
/// its temperatures.
#[derive(Debug)]
pub struct DailyForecast {
    pub date_time_in_unix: i64,
    pub temperature: Temperature,
}

/// The forecasts for the days to come.
#[derive(Debug)]
pub struct DailyForecasts {
    pub array: Vec<DailyForecast>,
}

/// The reply of the forecast service.
#[derive(Debug)]
pub struct OpenWeatherResponse {
    pub list: DailyForecasts,
}

/// The error of a count of milliseconds that names no moment.
pub open spec fn date_time_error() -> Seq<char> {
    "Couldn't parse date time"@
}

/// The error when no forecast is for the day.
pub open spec fn missing_day_error(day: CalendarDate) -> Seq<char> {
    "Couldn't found a forecast for day "@ + naive_date_display(day@)
}

/// The moment of a count of milliseconds since the Unix epoch, in UTC, as
/// chrono gives it.
pub open spec fn unix_moment(time: int) -> Option<DateTimeModel> {
    utc_moment_of_millis(time)
}

/// Whether a daily forecast is for the given day.
pub open spec fn is_forecast_for(daily: DailyForecast, day: CalendarDate) -> bool {
    unix_moment(daily.date_time_in_unix as int) matches Some(moment) && moment.date == day@
}

/// The weather made from a daily forecast: its moment, and its lowest and
/// highest temperature in degrees Celsius.
pub open spec fn is_weather_of(weather: Weather, daily: DailyForecast) -> bool {
    &&& unix_moment(daily.date_time_in_unix as int) == Some(weather.date@)
    &&& weather.temperature == super::contracts::Temperature::Range {
        min: Reading { bits: daily.temperature.min_bits, scale: TemperatureScale::Celsius },
        max: Reading { bits: daily.temperature.max_bits, scale: TemperatureScale::Celsius },
    }
}

/// The moment of a count of milliseconds since the Unix epoch, in UTC; an
/// error where there is no such moment.
pub fn convert_unix_to_date_time(time: i64) -> (moment: Result<DateTimeValue, String>)
    ensures
        match moment {
            Ok(m) => unix_moment(time as int) == Some(m@) && is_unix_moment(time as int, m@),
            Err(e) => unix_moment(time as int) is None && e@ == date_time_error(),
        },
        moment is Ok <==> unix_days_in_range(time as int),
{
    match utc_millis_to_parts(time) {
        Some(parts) => match DateTimeValue::from_parts(parts) {
            Some(moment) => Ok(moment),
            None => {
                assert(false);
                Err("Couldn't parse date time".to_string())
            },
        },
        None => Err("Couldn't parse date time".to_string()),
    }
}

/// Whether a count of milliseconds since the Unix epoch falls on a date:
/// chrono has a moment for it, and its whole days since the epoch are the
/// date's, whatever the time of day.
pub open spec fn falls_on(time: int, date: DateModel) -> bool {
    unix_days_in_range(time) && unix_days(time) == days_since_epoch(date)
}

/// The weather of the first forecast that is for `day`; an error when none
/// is.
pub fn convert_to_forecast(response: OpenWeatherResponse, day: CalendarDate) -> (weather: Result<Weather, String>)
    ensures
        weather matches Ok(w) ==> w.date@.date == day@,
        match weather {
            Ok(w) => exists|i: int|
                0 <= i < response.list.array@.len()
                && #[trigger] is_forecast_for(response.list.array@[i], day)
                && (forall|j: int| 0 <= j < i ==> !is_forecast_for(#[trigger] response.list.array@[j], day))
                && is_weather_of(w, response.list.array@[i]),
            Err(e) => (forall|i: int|
                0 <= i < response.list.array@.len() ==> !is_forecast_for(#[trigger] response.list.array@[i], day))
                && e@ == missing_day_error(day),
        },
        weather is Ok <==> exists|i: int|
            0 <= i < response.list.array@.len()
            && falls_on(#[trigger] response.list.array@[i].date_time_in_unix as int, day@),
        weather matches Ok(w) ==> exists|i: int|
            0 <= i < response.list.array@.len()
            && falls_on(#[trigger] response.list.array@[i].date_time_in_unix as int, day@)
            && (forall|j: int| 0 <= j < i
                ==> !falls_on(#[trigger] response.list.array@[j].date_time_in_unix as int, day@))
            && is_unix_moment(response.list.array@[i].date_time_in_unix as int, w.date@)
            && w.temperature == (super::contracts::Temperature::Range {
                min: Reading { bits: response.list.array@[i].temperature.min_bits, scale: TemperatureScale::Celsius },
                max: Reading { bits: response.list.array@[i].temperature.max_bits, scale: TemperatureScale::Celsius },
            }),
{
    let _year: i32 = day.year();
    let ghost days = response.list.array@;
    for daily in it: response.list.array
        invariant
            it.seq() == days,
            crate::datetime::valid_date(day@),
            forall|j: int| 0 <= j < it.index() ==> !is_forecast_for(#[trigger] days[j], day),
            forall|j: int| 0 <= j < it.index() ==> !falls_on(#[trigger] days[j].date_time_in_unix as int, day@),
    {
        let ghost index = it.index();
        assert(daily == days[index]);
        let found = match convert_unix_to_date_time(daily.date_time_in_unix) {
            Ok(moment) => {
                let date = moment.date();
                let same = date.same_day(&day);
                proof {
                    if !same && falls_on(daily.date_time_in_unix as int, day@) {
                        lemma_days_since_epoch_injective(date@, day@);
                    }
                }
                same
            },
            Err(_) => false,
        };
        if found {
            assert(is_forecast_for(days[index], day));
            assert(falls_on(days[index].date_time_in_unix as int, day@));
            return convert_daily_forecast_to_forecast(daily);
        }
        assert(!falls_on(days[index].date_time_in_unix as int, day@));
    }
    let mut message = "Couldn't found a forecast for day ".to_string();
    message.append(day.to_string().as_str());
    Err(message)
}

/// The weather of one daily forecast; an error when its count of
/// milliseconds names no moment.
pub fn convert_daily_forecast_to_forecast(daily: DailyForecast) -> (weather: Result<Weather, String>)
    ensures
        match weather {
            Ok(w) => is_weather_of(w, daily),
            Err(e) => unix_moment(daily.date_time_in_unix as int) is None && e@ == date_time_error(),
        },
        weather is Ok <==> unix_days_in_range(daily.date_time_in_unix as int),
        weather matches Ok(w) ==> {
            &&& is_unix_moment(daily.date_time_in_unix as int, w.date@)
            &&& w.temperature == (super::contracts::Temperature::Range {
                min: Reading { bits: daily.temperature.min_bits, scale: TemperatureScale::Celsius },
                max: Reading { bits: daily.temperature.max_bits, scale: TemperatureScale::Celsius },
            })
        },
{
    let date_time = match convert_unix_to_date_time(daily.date_time_in_unix) {
        Ok(moment) => moment,
        Err(e) => return Err(e),
    };
    Ok(Weather {
        date: date_time,
        temperature: super::contracts::Temperature::Range {
            min: Reading { bits: daily.temperature.min_bits, scale: TemperatureScale::Celsius },
            max: Reading { bits: daily.temperature.max_bits, scale: TemperatureScale::Celsius },
        },
    })
}

/// A forecast is for a day exactly when its timestamp names a moment on that
/// day, whatever the time of day.
pub proof fn law_forecast_for_any_time_of_day(daily: DailyForecast, day: CalendarDate)
    ensures
        is_forecast_for(daily, day) <==> (unix_moment(daily.date_time_in_unix as int) matches Some(m)
            && m.date == day@),
        forall|m: DateTimeModel| unix_moment(daily.date_time_in_unix as int) == Some(m) && m.date == day@
            ==> is_forecast_for(daily, day),
{
}

/// The weather made from a daily forecast carries its timestamp's moment and
/// its lowest and highest temperature unchanged, in degrees Celsius.
pub proof fn law_weather_keeps_forecast(weather: Weather, daily: DailyForecast)
    requires
        is_weather_of(weather, daily),
    ensures
        unix_moment(daily.date_time_in_unix as int) == Some(weather.date@),
        (weather.temperature matches super::contracts::Temperature::Range { min, max }
            && min.bits == daily.temperature.min_bits && max.bits == daily.temperature.max_bits
            && min.scale == TemperatureScale::Celsius && max.scale == TemperatureScale::Celsius),
{
}

} // verus!
