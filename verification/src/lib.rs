//! A weather lookup library: it keeps the addresses that a geocoding
//! service found, remembers which one the user chose, and turns the replies
//! of two weather services into one `Weather` value.

pub mod contracts;
pub mod location_manager;
pub mod datetime;
pub mod open_weather;
pub mod accu_weather;
pub mod dialog;
pub mod decimal;
