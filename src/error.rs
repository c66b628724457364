use vstd::prelude::*;

use crate::provider::Provider;

verus! {

/// A failure reported by a credentials store.
#[derive(Debug, Clone, PartialEq, Eq)]
pub struct StoreError {
    pub message: String,
}

/// Everything that can go wrong while producing a weather report.
#[derive(Debug, Clone, PartialEq, Eq)]
pub enum WeatherError {
    /// The date is not written as `YYYY-MM-DD`, or names no calendar day.
    InvalidDateFormat,
    /// The date lies before today.
    DateInPast,
    /// The day offset lies beyond what the provider forecasts.
    HorizonExceeded { provider: Provider },
    /// No provider was requested and none is stored as the default.
    NoProviderConfigured,
    /// The store holds no credentials for the provider.
    CredentialsNotConfigured { provider: Provider },
    /// The credentials belong to another provider than the requested one.
    CredentialsProviderMismatch { provider: Provider },
    /// The provider found no location, or no forecast for the requested day.
    AddressNotFound,
    /// The request could not be sent, or the provider answered with an error status.
    UpstreamTransportError { message: String },
    /// The provider's answer does not have the expected shape.
    UpstreamSchemaError { message: String },
    /// The credentials store could not be read.
    StoreFailure(StoreError),
}

/// The name a provider goes by in messages.
pub open spec fn provider_name(p: Provider) -> Seq<char> {
    match p {
        Provider::WeatherApi => "WeatherApi"@,
        Provider::AccuWeather => "AccuWeather"@,
    }
}

/// The longest forecast a provider gives, in days, today included.
pub open spec fn horizon_days(p: Provider) -> u32 {
    match p {
        Provider::WeatherApi => 14,
        Provider::AccuWeather => 5,
    }
}

fn provider_name_text(p: Provider) -> (r: &'static str)
    ensures
        r@ == provider_name(p),
{
    match p {
        Provider::WeatherApi => "WeatherApi",
        Provider::AccuWeather => "AccuWeather",
    }
}

impl WeatherError {
    /// The human-readable message of this error.
    pub open spec fn message(&self) -> Seq<char> {
        match self {
            WeatherError::InvalidDateFormat => "invalid date format (expected YYYY-MM-DD)"@,
            WeatherError::DateInPast => "date is in the past"@,
            WeatherError::HorizonExceeded { provider } => match provider {
                Provider::WeatherApi => "WeatherAPI only supports up to 14 days forecast (including today)."@,
                Provider::AccuWeather => "AccuWeather API only supports up to 5 days forecast (including today)."@,
            },
            WeatherError::NoProviderConfigured => "No provider specified and no default provider set. Please configure a provider and/or set a default."@,
            WeatherError::CredentialsNotConfigured { provider } => "No credentials found for provider `"@ + provider_name(*provider) + "`. Please configure it first."@,
            WeatherError::CredentialsProviderMismatch { provider } => "credentials type does not match provider: "@ + provider_name(*provider),
            WeatherError::AddressNotFound => "Address not found, please, use more accurate address, eg: Kyiv, Ukraine"@,
            WeatherError::UpstreamTransportError { message } => message@,
            WeatherError::UpstreamSchemaError { message } => message@,
            WeatherError::StoreFailure(e) => e.message@,
        }
    }

    /// Renders the error for a person to read.
    pub fn to_string(&self) -> (r: String)
        ensures
            r@ == self.message(),
    {
        match self {
            WeatherError::InvalidDateFormat => "invalid date format (expected YYYY-MM-DD)".to_string(),
            WeatherError::DateInPast => "date is in the past".to_string(),
            WeatherError::HorizonExceeded { provider } => match provider {
                Provider::WeatherApi => "WeatherAPI only supports up to 14 days forecast (including today).".to_string(),
                Provider::AccuWeather => "AccuWeather API only supports up to 5 days forecast (including today).".to_string(),
            },
            WeatherError::NoProviderConfigured => "No provider specified and no default provider set. Please configure a provider and/or set a default.".to_string(),
            WeatherError::CredentialsNotConfigured { provider } => {
                let mut s = "No credentials found for provider `".to_string();
                s.append(provider_name_text(*provider));
                s.append("`. Please configure it first.");
                s
            },
            WeatherError::CredentialsProviderMismatch { provider } => {
                let mut s = "credentials type does not match provider: ".to_string();
                s.append(provider_name_text(*provider));
                s
            },
            WeatherError::AddressNotFound => "Address not found, please, use more accurate address, eg: Kyiv, Ukraine".to_string(),
            WeatherError::UpstreamTransportError { message } => message.clone(),
            WeatherError::UpstreamSchemaError { message } => message.clone(),
            WeatherError::StoreFailure(e) => e.message.clone(),
        }
    }
}

} // verus!
