use vstd::prelude::*;

use crate::error::StoreError;
use crate::provider::Provider;

verus! {

/// The secret that a provider asks for, tagged with the provider it belongs to.
#[derive(Debug, Clone, PartialEq, Eq)]
pub enum Credentials {
    WeatherApi { api_key: String },
    AccuWeather { api_key: String },
}

impl Credentials {
    /// The provider that these credentials belong to.
    pub open spec fn belongs_to(&self) -> Provider {
        match self {
            Credentials::WeatherApi { .. } => Provider::WeatherApi,
            Credentials::AccuWeather { .. } => Provider::AccuWeather,
        }
    }

    /// The API key held by these credentials.
    pub open spec fn key(&self) -> Seq<char> {
        match self {
            Credentials::WeatherApi { api_key } => api_key@,
            Credentials::AccuWeather { api_key } => api_key@,
        }
    }

    /// Returns the provider that these credentials belong to.
    pub fn provider(&self) -> (r: Provider)
        ensures
            r == self.belongs_to(),
    {
        match self {
            Credentials::WeatherApi { .. } => Provider::WeatherApi,
            Credentials::AccuWeather { .. } => Provider::AccuWeather,
        }
    }
}

/// Where credentials and the default provider are kept between runs
/// (a file, a keychain, a database, or memory in tests).
pub trait CredentialsStore {
    /// Stores the credentials for the provider.
    fn set_credentials(&mut self, provider: Provider, credentials: &Credentials) -> Result<(), StoreError>;

    /// The stored credentials for the provider, if any.
    fn get_credentials(&self, provider: Provider) -> Result<Option<Credentials>, StoreError>;

    /// Makes the provider the one used when none is requested.
    fn set_default_provider(&mut self, provider: Provider) -> Result<(), StoreError>;

    /// The provider used when none is requested, if one is set.
    fn get_default_provider(&self) -> Result<Option<Provider>, StoreError>;
}

} // verus!
