use vstd::prelude::*;

use crate::provider::Provider;

verus! {

/// A temperature in thousandths of a degree Celsius.
#[derive(Debug, Clone, Copy, PartialEq, Eq, Structural)]
pub struct Temperature {
    pub millidegrees: i64,
}

/// A forecast for one day at one place, whichever provider it came from.
#[derive(Debug, Clone, PartialEq, Eq)]
pub struct WeatherReport {
    pub provider: Provider,
    /// The day of the forecast, as `YYYY-MM-DD`.
    pub date: String,
    /// The place, as "city, country".
    pub location: String,
    pub description: String,
    pub max_temperature: Temperature,
    pub min_temperature: Temperature,
}

} // verus!
