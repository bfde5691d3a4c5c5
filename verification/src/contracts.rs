use vstd::prelude::*;

verus! {

/// Something that can describe its temperature in text.
pub trait GetTempeature {
    fn get_temperature(&self) -> String;
}

/// Something that can describe its date in text.
pub trait GetDate {
    fn get_date(&self) -> String;
}

/// A forecast: a date and a temperature.
pub trait Forecast: GetDate + GetTempeature {
}

/// An address that can be shown to the user.
pub trait GetFullAddress {
    fn get_full_address(&self) -> &str;
}

/// A service that finds addresses for a text and lets the user choose one.
/// Finding is split in two: the caller asks the service (`found` is its
/// reply), and the addresses are kept and handed back.
pub trait GetAddress {
    type Address: GetFullAddress;

    fn find_addresses(&mut self, found: Result<Vec<Self::Address>, String>)
        -> Result<&Vec<Self::Address>, String>;

    fn choose_address(&mut self, index: usize) -> Result<(), String>;
}

} // verus!
