pub mod contracts;
pub mod location;
pub mod current_weather;
pub mod future_weather;
