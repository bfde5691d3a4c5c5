pub mod contracts;
pub mod location;
pub mod current_weather;
pub mod future_weather;

use vstd::prelude::*;
use crate::contracts::GetAddress;
use crate::datetime::CalendarDate;
use crate::location_manager::{no_chosen_address_message, LocationManager};
use self::contracts::Address;

verus! {

/// The OpenWeather services: the addresses found and the one chosen.
pub struct OpenWeatherProvider {
    location_manager: LocationManager<Address>,
}

/// The request to send for the weather: the forecast of a day, or the
/// current weather, at an address.
#[derive(Debug)]
pub enum WeatherRequest<'a> {
    Forecast { address: &'a Address, day: CalendarDate },
    Today { address: &'a Address },
}

impl OpenWeatherProvider {
    /// The addresses and choice kept.
    pub closed spec fn manager(&self) -> LocationManager<Address> {
        self.location_manager
    }

    pub fn new() -> (provider: Self)
        ensures
            provider.manager().stored() == Seq::<Address>::empty(),
            provider.manager().chosen() == None::<usize>,
    {
        OpenWeatherProvider { location_manager: LocationManager::new() }
    }

    /// The chosen index, if any.
    pub fn chosen_index(&self) -> (index: Option<usize>)
        ensures
            index == self.manager().chosen(),
    {
        self.location_manager.chosen_index()
    }

    /// All addresses kept.
    pub fn get_all_addresses(&self) -> (addresses: &Vec<Address>)
        ensures
            addresses@ == self.manager().stored(),
    {
        self.location_manager.get_all_addresses()
    }

    /// What to ask for the weather at the chosen address: the forecast of
    /// `date` when one is given, else the current weather; an error when no
    /// address was chosen.
    pub fn weather_request(&self, date: Option<CalendarDate>) -> (request: Result<WeatherRequest<'_>, String>)
        requires
            self.manager().choice_in_range(),
        ensures
            match self.manager().chosen() {
                Some(i) => match (request, date) {
                    (Ok(WeatherRequest::Forecast { address, day }), Some(d)) =>
                        *address == self.manager().stored()[i as int] && day == d,
                    (Ok(WeatherRequest::Today { address }), None) =>
                        *address == self.manager().stored()[i as int],
                    _ => false,
                },
                None => request matches Err(e) && e@ == no_chosen_address_message(),
            },
    {
        let address = match self.location_manager.get_chosen_address() {
            Ok(address) => address,
            Err(e) => return Err(e),
        };
        match date {
            Some(day) => Ok(WeatherRequest::Forecast { address, day }),
            None => Ok(WeatherRequest::Today { address }),
        }
    }
}

impl GetAddress for OpenWeatherProvider {
    type Address = Address;

    /// Keeps the addresses the service found and hands them back; hands a
    /// failure of the service back unchanged, keeping what was stored.
    fn find_addresses(&mut self, found: Result<Vec<Address>, String>) -> (addresses: Result<&Vec<Address>, String>)
        ensures
            match found {
                Ok(v) => addresses matches Ok(a) && a@ == v@
                    && final(self).manager().stored() == v@
                    && final(self).manager().chosen() == old(self).manager().chosen(),
                Err(e) => addresses == Err::<&Vec<Address>, String>(e)
                    && final(self).manager() == old(self).manager(),
            },
    {
        match found {
            Ok(v) => {
                self.location_manager.store_addresses(v);
                Ok(self.location_manager.get_all_addresses())
            },
            Err(e) => Err(e),
        }
    }

    /// Chooses the address at `index`, as `LocationManager::choose_address`.
    fn choose_address(&mut self, index: usize) -> (result: Result<(), String>)
        ensures
            match result {
                Ok(()) => old(self).manager().accepts_choice(index)
                    && final(self).manager().chosen() == Some(index),
                Err(e) => !old(self).manager().accepts_choice(index)
                    && e@ == old(self).manager().choice_error(index)
                    && final(self).manager() == old(self).manager(),
            },
            final(self).manager().stored() == old(self).manager().stored(),
    {
        self.location_manager.choose_address(index)
    }
}

} // verus!
