use vstd::prelude::*;
use crate::contracts::GetFullAddress;

pub use crate::open_weather::contracts::{Reading, Temperature, TemperatureScale, Weather};

verus! {

/// A place found by the AccuWeather location service: its location key and
/// the text shown to the user.
#[derive(Debug)]
pub struct Address {
    pub key: String,
    pub full_address: String,
}

impl GetFullAddress for Address {
    fn get_full_address(&self) -> (text: &str)
        ensures
            text@ == self.full_address@,
    {
        self.full_address.as_str()
    }
}

} // verus!
