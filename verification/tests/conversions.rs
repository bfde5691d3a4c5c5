use weather::accu_weather::current_weather as accu_current;
use weather::accu_weather::future_weather as accu_future;
use weather::accu_weather::location as accu_location;
use weather::contracts::{GetDate, GetFullAddress};
use weather::datetime::{CalendarDate, DateTimeValue};
use weather::open_weather::contracts::{Reading, Temperature, TemperatureScale};
use weather::open_weather::current_weather as open_current;
use weather::open_weather::future_weather as open_future;
use weather::open_weather::location as open_location;

fn open_city(name: &str, state: Option<&str>, country: &str) -> open_location::City {
    open_location::City {
        lat_bits: 48.8566f64.to_bits(),
        lon_bits: 2.3522f64.to_bits(),
        name: name.to_string(),
        country: country.to_string(),
        state: state.map(|s| s.to_string()),
    }
}

fn accu_city(key: &str, name: &str, region: &str, country: &str) -> accu_location::City {
    accu_location::City {
        key: key.to_string(),
        name: name.to_string(),
        country: accu_location::Area { name: country.to_string() },
        region: accu_location::Area { name: region.to_string() },
    }
}

fn celsius(value: f64) -> Reading {
    Reading { bits: value.to_bits(), scale: TemperatureScale::Celsius }
}

fn moment(y: i32, mo: u32, d: u32, h: u32, mi: u32, s: u32) -> DateTimeValue {
    DateTimeValue::new(y, mo, d, h, mi, s, 0).unwrap()
}

#[test]
fn open_city_text_with_and_without_state() {
    assert_eq!(open_city("London", Some("England"), "GB").to_string(), "London, England, GB");
    assert_eq!(open_city("Paris", None, "FR").to_string(), "Paris, FR");
}

#[test]
fn open_addresses_keep_order_and_coordinates() {
    let response = open_location::LocationResponse {
        cities: vec![open_city("London", Some("England"), "GB"), open_city("London", Some("Ontario"), "CA")],
    };
    let addresses = open_location::convert_to_addresses(response);
    assert_eq!(addresses.len(), 2);
    assert_eq!(addresses[0].get_full_address(), "London, England, GB");
    assert_eq!(addresses[1].get_full_address(), "London, Ontario, CA");
    assert_eq!(f64::from_bits(addresses[1].lat_bits), 48.8566);
    assert_eq!(f64::from_bits(addresses[1].lon_bits), 2.3522);
}

#[test]
fn open_no_cities_no_addresses() {
    let addresses = open_location::convert_to_addresses(open_location::LocationResponse { cities: vec![] });
    assert!(addresses.is_empty());
}

#[test]
fn accu_city_text_and_address() {
    let city = accu_city("623", "Paris", "Ile-de-France", "France");
    assert_eq!(city.to_string(), "Paris, Ile-de-France, France");
    let address = accu_location::convert_city_to_address(city);
    assert_eq!(address.key, "623");
    assert_eq!(address.get_full_address(), "Paris, Ile-de-France, France");
}

#[test]
fn accu_addresses_keep_order() {
    let response = accu_location::LocationResponse {
        cities: vec![accu_city("1", "A", "B", "C"), accu_city("2", "D", "E", "F")],
    };
    let addresses = accu_location::convert_to_addresses(response);
    assert_eq!(addresses.len(), 2);
    assert_eq!(addresses[0].key, "1");
    assert_eq!(addresses[1].full_address, "D, E, F");
}

#[test]
fn unix_time_is_read_as_milliseconds() {
    let moment = open_future::convert_unix_to_date_time(1_700_000_000_000).unwrap();
    assert_eq!(moment.to_string(), "2023-11-14 22:13:20");
    let early = open_future::convert_unix_to_date_time(1_700_000_000).unwrap();
    assert_eq!(early.to_string(), "1970-01-20 16:13:20");
    let millis = open_future::convert_unix_to_date_time(-1).unwrap();
    assert_eq!(millis.to_string(), "1969-12-31 23:59:59.999");
}

#[test]
fn unix_time_out_of_range_is_an_error() {
    assert_eq!(
        open_future::convert_unix_to_date_time(i64::MAX).err().unwrap(),
        "Couldn't parse date time"
    );
    assert_eq!(
        open_future::convert_unix_to_date_time(i64::MIN).err().unwrap(),
        "Couldn't parse date time"
    );
}

#[test]
fn open_current_weather() {
    let response = open_current::TodayResponse {
        main: open_current::MainWeather { temperature_bits: 284.2f64.to_bits() },
        date_time_in_unix: 86_400_000,
    };
    let weather = open_current::convert_to_forecast(response).unwrap();
    assert_eq!(weather.get_date(), "1970-01-02 00:00:00");
    assert_eq!(weather.temperature, Temperature::Value(celsius(284.2)));
}

#[test]
fn open_current_weather_bad_time() {
    let response = open_current::TodayResponse {
        main: open_current::MainWeather { temperature_bits: 0f64.to_bits() },
        date_time_in_unix: i64::MAX,
    };
    assert_eq!(open_current::convert_to_forecast(response).err().unwrap(), "Couldn't parse date time");
}

fn open_daily(millis: i64, min: f64, max: f64) -> open_future::DailyForecast {
    open_future::DailyForecast {
        date_time_in_unix: millis,
        temperature: open_future::Temperature { min_bits: min.to_bits(), max_bits: max.to_bits() },
    }
}

fn open_days() -> open_future::OpenWeatherResponse {
    open_future::OpenWeatherResponse {
        list: open_future::DailyForecasts {
            array: vec![
                open_daily(i64::MAX, 0.0, 1.0),
                open_daily(86_400_000, 2.0, 3.0),
                open_daily(2 * 86_400_000 + 3_600_000, 4.0, 5.0),
                open_daily(2 * 86_400_000 + 7_200_000, 6.0, 7.0),
            ],
        },
    }
}

#[test]
fn open_forecast_takes_first_match_for_day() {
    let day = CalendarDate::new(1970, 1, 3).unwrap();
    let weather = open_future::convert_to_forecast(open_days(), day).unwrap();
    assert_eq!(weather.get_date(), "1970-01-03 01:00:00");
    assert_eq!(weather.temperature, Temperature::Range { min: celsius(4.0), max: celsius(5.0) });
    assert_eq!(weather.date.date(), day);
}

#[test]
fn open_forecast_missing_day() {
    let day = CalendarDate::new(2024, 12, 25).unwrap();
    assert_eq!(
        open_future::convert_to_forecast(open_days(), day).err().unwrap(),
        "Couldn't found a forecast for day 2024-12-25"
    );
}

#[test]
fn open_daily_conversion() {
    let weather = open_future::convert_daily_forecast_to_forecast(open_daily(0, -3.5, 2.5)).unwrap();
    assert_eq!(weather.get_date(), "1970-01-01 00:00:00");
    assert_eq!(weather.temperature, Temperature::Range { min: celsius(-3.5), max: celsius(2.5) });
    assert_eq!(
        open_future::convert_daily_forecast_to_forecast(open_daily(i64::MIN, 0.0, 0.0)).err().unwrap(),
        "Couldn't parse date time"
    );
}

#[test]
fn accu_current_takes_first_observation() {
    let observation = |hour: u32, value: f64| accu_current::DailyForecast {
        date: moment(2024, 5, 1, hour, 30, 0),
        temperature: accu_current::Temperature {
            metric: accu_current::MetricTemperature { value_bits: value.to_bits() },
        },
    };
    let response = accu_current::TodayResponse { array: vec![observation(7, 12.5), observation(8, 13.0)] };
    let weather = accu_current::convert_to_forecast(response).unwrap();
    assert_eq!(weather.get_date(), "2024-05-01 07:30:00");
    assert_eq!(weather.temperature, Temperature::Value(celsius(12.5)));
}

#[test]
fn accu_current_without_observation() {
    let response = accu_current::TodayResponse { array: vec![] };
    assert_eq!(
        accu_current::convert_to_forecast(response).err().unwrap(),
        "Couldn't found a forecast for that day"
    );
}

fn value(value: f64, unit_type: i32) -> accu_future::TemperatureValue {
    accu_future::TemperatureValue { value_bits: value.to_bits(), unit_type }
}

fn accu_daily(day: u32, min: accu_future::TemperatureValue, max: accu_future::TemperatureValue) -> accu_future::DailyForecast {
    accu_future::DailyForecast {
        date: moment(2024, 5, day, 7, 0, 0),
        temperature: accu_future::Temperature { min_value: min, max_value: max },
    }
}

#[test]
fn accu_temperature_units() {
    assert_eq!(accu_future::match_temperature(&value(20.0, 17)), Ok(celsius(20.0)));
    assert_eq!(
        accu_future::match_temperature(&value(68.0, 18)),
        Ok(Reading { bits: 68.0f64.to_bits(), scale: TemperatureScale::Fahrenheit })
    );
    assert_eq!(
        accu_future::match_temperature(&value(20.0, 19)),
        Err("Incorrect unit_type for temperature. Required 17 or 18".to_string())
    );
}

#[test]
fn accu_forecast_for_day() {
    let response = accu_future::AccueWeatherResponse {
        daily_forecasts: accu_future::DailyForecasts {
            array: vec![
                accu_daily(1, value(10.0, 17), value(20.0, 17)),
                accu_daily(2, value(50.0, 18), value(70.0, 18)),
                accu_daily(2, value(0.0, 17), value(1.0, 17)),
            ],
        },
    };
    let weather = accu_future::convert_to_forecast(response, CalendarDate::new(2024, 5, 2).unwrap()).unwrap();
    assert_eq!(weather.get_date(), "2024-05-02 07:00:00");
    assert_eq!(
        weather.temperature,
        Temperature::Range {
            min: Reading { bits: 50.0f64.to_bits(), scale: TemperatureScale::Fahrenheit },
            max: Reading { bits: 70.0f64.to_bits(), scale: TemperatureScale::Fahrenheit },
        }
    );
}

#[test]
fn accu_forecast_errors() {
    let response = || accu_future::AccueWeatherResponse {
        daily_forecasts: accu_future::DailyForecasts {
            array: vec![accu_daily(1, value(10.0, 17), value(20.0, 3)), accu_daily(2, value(1.0, 5), value(2.0, 17))],
        },
    };
    assert_eq!(
        accu_future::convert_to_forecast(response(), CalendarDate::new(2024, 5, 3).unwrap()).err().unwrap(),
        "Couldn't found a forecast for day 2024-05-03"
    );
    assert_eq!(
        accu_future::convert_to_forecast(response(), CalendarDate::new(2024, 5, 1).unwrap()).err().unwrap(),
        "Incorrect unit_type for temperature. Required 17 or 18"
    );
    assert_eq!(
        accu_future::convert_to_forecast(response(), CalendarDate::new(2024, 5, 2).unwrap()).err().unwrap(),
        "Incorrect unit_type for temperature. Required 17 or 18"
    );
}

#[test]
fn request_addresses() {
    assert_eq!(
        open_location::location_url("Paris", "k3y"),
        "http://api.openweathermap.org/geo/1.0/direct?appid=k3y&q=Paris"
    );
    assert_eq!(
        accu_location::location_url("Paris", "k3y"),
        "http://dataservice.accuweather.com/locations/v1/cities/autocomplete?apikey=k3y&q=Paris"
    );
    assert_eq!(
        accu_current::today_url("623", "k3y"),
        "http://dataservice.accuweather.com/currentconditions/v1/623?apikey=k3y"
    );
    assert_eq!(
        accu_future::forecast_url("623", "k3y"),
        "http://dataservice.accuweather.com/forecasts/v1/daily/5day/623?apikey=k3y&language=en-gb"
    );
}

#[test]
fn unix_time_range_edges() {
    let first = open_future::convert_unix_to_date_time(-8_334_601_228_800_000).unwrap();
    assert_eq!(first.to_string(), "-262143-01-01 00:00:00");
    assert!(open_future::convert_unix_to_date_time(-8_334_601_228_800_001).is_err());
    let last = open_future::convert_unix_to_date_time(8_210_266_876_799_999).unwrap();
    assert_eq!(last.to_string(), "+262142-12-31 23:59:59.999");
    assert!(open_future::convert_unix_to_date_time(8_210_266_876_800_000).is_err());
}
