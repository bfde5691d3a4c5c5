use vstd::prelude::*;
use crate::contracts::{GetDate, GetFullAddress};
use crate::datetime::{naive_date_time_display, DateTimeValue};

verus! {

/// The scale a temperature reading is given in.
#[derive(Clone, Copy, Debug, PartialEq, Eq, Structural)]
pub enum TemperatureScale {
    Celsius,
    Fahrenheit,
}

/// A temperature as a service reported it: the IEEE-754 bit pattern of the
/// `f64` number of degrees, and the scale of that number.
#[derive(Clone, Copy, Debug, PartialEq, Eq, Structural)]
pub struct Reading {
    pub bits: u64,
    pub scale: TemperatureScale,
}

/// One temperature, or the lowest and highest of a day.
#[derive(Clone, Copy, Debug, PartialEq, Eq, Structural)]
pub enum Temperature {
    Value(Reading),
    Range { min: Reading, max: Reading },
}

/// The weather at a moment.
#[derive(Clone, Copy, Debug, PartialEq, Eq, Structural)]
pub struct Weather {
    pub date: DateTimeValue,
    pub temperature: Temperature,
}

impl GetDate for Weather {
    /// The moment, written as chrono writes a `NaiveDateTime`.
    fn get_date(&self) -> (text: String)
        ensures
            text@ == naive_date_time_display(self.date@),
    {
        self.date.to_string()
    }
}

/// A place found by the geocoding service: its latitude and longitude (the
/// IEEE-754 bit patterns of the `f64` degrees) and the text shown to the
/// user.
#[derive(Debug)]
pub struct Address {
    pub lat_bits: u64,
    pub lon_bits: u64,
    pub full_address: String,
}

impl GetFullAddress for Address {
    fn get_full_address(&self) -> (text: &str)
        ensures
            text@ == self.full_address@,
    {
        self.full_address.as_str()
    }
}

} // verus!
