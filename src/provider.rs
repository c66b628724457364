use vstd::prelude::*;

verus! {

/// The weather services a forecast can be taken from.
#[derive(Debug, Clone, Copy, PartialEq, Eq, Hash, Structural)]
pub enum Provider {
    WeatherApi,
    AccuWeather,
}

/// A provider as it is named on the command line.
#[derive(Debug, Clone, Copy, PartialEq, Eq, Structural)]
pub enum ProviderCli {
    WeatherApi,
    AccuWeather,
}

impl From<Provider> for ProviderCli {
    fn from(provider: Provider) -> Self {
        match provider {
            Provider::WeatherApi => ProviderCli::WeatherApi,
            Provider::AccuWeather => ProviderCli::AccuWeather,
        }
    }
}

impl vstd::std_specs::convert::FromSpecImpl<Provider> for ProviderCli {
    open spec fn obeys_from_spec() -> bool {
        true
    }

    open spec fn from_spec(v: Provider) -> ProviderCli {
        match v {
            Provider::WeatherApi => ProviderCli::WeatherApi,
            Provider::AccuWeather => ProviderCli::AccuWeather,
        }
    }
}

impl From<ProviderCli> for Provider {
    fn from(provider: ProviderCli) -> Self {
        match provider {
            ProviderCli::WeatherApi => Provider::WeatherApi,
            ProviderCli::AccuWeather => Provider::AccuWeather,
        }
    }
}

impl vstd::std_specs::convert::FromSpecImpl<ProviderCli> for Provider {
    open spec fn obeys_from_spec() -> bool {
        true
    }

    open spec fn from_spec(v: ProviderCli) -> Provider {
        match v {
            ProviderCli::WeatherApi => Provider::WeatherApi,
            ProviderCli::AccuWeather => Provider::AccuWeather,
        }
    }
}

} // verus!
