use vstd::prelude::*;

use crate::apis::{client_for, starts_fetch, FetchAction, ProviderClientFactory};
use crate::calendar::{day_number, days_from_today, offset_from, ymd_parse, CalendarDate};
use crate::credentials::{Credentials, CredentialsStore};
use crate::error::{StoreError, WeatherError};
use crate::provider::Provider;

verus! {

/// Produces weather reports from an address, an optional date and an optional provider,
/// with credentials from a store and clients from a factory.
#[derive(Debug)]
pub struct WeatherService<S, F> where S: CredentialsStore, F: ProviderClientFactory {
    store: S,
    factory: F,
}

/// The provider that the stored default makes for a request that names none.
pub open spec fn provider_from_default(stored_default: Result<Option<Provider>, StoreError>) -> Result<Provider, WeatherError> {
    match stored_default {
        Err(e) => Err(WeatherError::StoreFailure(e)),
        Ok(None) => Err(WeatherError::NoProviderConfigured),
        Ok(Some(p)) => Ok(p),
    }
}

/// The provider a request goes to: the requested one, else the stored default.
pub open spec fn resolved_provider(requested: Option<Provider>, stored_default: Result<Option<Provider>, StoreError>) -> Result<Provider, WeatherError> {
    match requested {
        Some(p) => Ok(p),
        None => provider_from_default(stored_default),
    }
}

/// The credentials that the store's answer gives for `provider`.
pub open spec fn credentials_from_store(provider: Provider, stored: Result<Option<Credentials>, StoreError>) -> Result<Credentials, WeatherError> {
    match stored {
        Err(e) => Err(WeatherError::StoreFailure(e)),
        Ok(None) => Err(WeatherError::CredentialsNotConfigured { provider }),
        Ok(Some(c)) => Ok(c),
    }
}

/// The day offsets that `date` can give, whatever today is.
pub open spec fn possible_offset(date: Option<String>, offset: Result<u32, WeatherError>) -> bool {
    match date {
        None => offset == Ok::<u32, WeatherError>(0),
        Some(d) => exists|today: CalendarDate| today.wf() && offset == #[trigger] offset_from(ymd_parse(d@), today),
    }
}

/// `action` is how a request for `address` begins, given the day offset, the requested
/// provider, the store's default provider and the store's credentials for the resolved
/// provider: the first failure ends it, in that order.
pub open spec fn plans(
    action: FetchAction,
    address: Seq<char>,
    offset: Result<u32, WeatherError>,
    requested: Option<Provider>,
    stored_default: Result<Option<Provider>, StoreError>,
    stored: Result<Option<Credentials>, StoreError>,
) -> bool {
    match offset {
        Err(e) => action == FetchAction::Finish(Err(e)),
        Ok(days) => match resolved_provider(requested, stored_default) {
            Err(e) => action == FetchAction::Finish(Err(e)),
            Ok(p) => match credentials_from_store(p, stored) {
                Err(e) => action == FetchAction::Finish(Err(e)),
                Ok(c) => match client_for(p, c) {
                    Err(e) => action == FetchAction::Finish(Err(e)),
                    Ok(client) => starts_fetch(client, address, days, action),
                },
            },
        },
    }
}

/// The provider for a request that names none, out of the store's answer.
pub fn default_provider(stored_default: Result<Option<Provider>, StoreError>) -> (r: Result<Provider, WeatherError>)
    ensures
        r == provider_from_default(stored_default),
{
    match stored_default {
        Err(e) => Err(WeatherError::StoreFailure(e)),
        Ok(None) => Err(WeatherError::NoProviderConfigured),
        Ok(Some(p)) => Ok(p),
    }
}

/// The credentials for `provider` out of the store's answer.
pub fn stored_credentials(provider: Provider, stored: Result<Option<Credentials>, StoreError>) -> (r: Result<Credentials, WeatherError>)
    ensures
        r == credentials_from_store(provider, stored),
{
    match stored {
        Err(e) => Err(WeatherError::StoreFailure(e)),
        Ok(None) => Err(WeatherError::CredentialsNotConfigured { provider }),
        Ok(Some(c)) => Ok(c),
    }
}

impl<S, F> WeatherService<S, F> where S: CredentialsStore, F: ProviderClientFactory {
    pub fn new(store: S, factory: F) -> Self {
        WeatherService { store, factory }
    }

    /// Begins the forecast for `address` on `date` (`YYYY-MM-DD`, today if absent) from
    /// `provider`, or from the stored default provider if none is given. The date is checked
    /// first, then the provider is resolved, its credentials are read and its client is made.
    pub fn get_weather(&mut self, address: String, date: Option<String>, provider: Option<Provider>) -> (r: FetchAction)
        ensures
            exists|
                offset: Result<u32, WeatherError>,
                stored_default: Result<Option<Provider>, StoreError>,
                stored: Result<Option<Credentials>, StoreError>,
            |
                possible_offset(date, offset)
                    && #[trigger] plans(r, address@, offset, provider, stored_default, stored),
    {
        let offset = match &date {
            Some(d) => days_from_today(d.as_str()),
            None => Ok(0),
        };
        let ghost offset_seen = offset;
        let ghost no_default: Result<Option<Provider>, StoreError> = Ok(None);
        let ghost no_credentials: Result<Option<Credentials>, StoreError> = Ok(None);
        let days = match offset {
            Ok(days) => days,
            Err(e) => {
                let r = FetchAction::Finish(Err(e));
                assert(plans(r, address@, offset_seen, provider, no_default, no_credentials));
                return r;
            },
        };
        let resolved = self.resolve_provider(provider);
        let ghost stored_default = choose|d: Result<Option<Provider>, StoreError>| resolved == resolved_provider(provider, d);
        let p = match resolved {
            Ok(p) => p,
            Err(e) => {
                let r = FetchAction::Finish(Err(e));
                assert(plans(r, address@, offset_seen, provider, stored_default, no_credentials));
                return r;
            },
        };
        let stored = self.store.get_credentials(p);
        let ghost stored_seen = stored;
        let credentials = match stored_credentials(p, stored) {
            Ok(c) => c,
            Err(e) => {
                let r = FetchAction::Finish(Err(e));
                assert(plans(r, address@, offset_seen, provider, stored_default, stored_seen));
                return r;
            },
        };
        let client = match self.factory.create_client(p, credentials) {
            Ok(client) => client,
            Err(e) => {
                let r = FetchAction::Finish(Err(e));
                assert(plans(r, address@, offset_seen, provider, stored_default, stored_seen));
                return r;
            },
        };
        let r = client.get_weather(address.as_str(), days);
        assert(plans(r, address@, offset_seen, provider, stored_default, stored_seen));
        r
    }

    /// The requested provider, else the one stored as the default; the store is asked only
    /// when no provider is requested.
    fn resolve_provider(&self, provider: Option<Provider>) -> (r: Result<Provider, WeatherError>)
        ensures
            exists|d: Result<Option<Provider>, StoreError>| r == #[trigger] resolved_provider(provider, d),
    {
        match provider {
            Some(p) => {
                assert(Ok::<Provider, WeatherError>(p) == resolved_provider(provider, Ok(None)));
                Ok(p)
            },
            None => {
                let stored_default = self.store.get_default_provider();
                let ghost seen = stored_default;
                let r = default_provider(stored_default);
                assert(r == resolved_provider(provider, seen));
                r
            },
        }
    }
}

/// A date before today ends the request with `DateInPast`, whatever the store holds.
pub proof fn lemma_service_refuses_past_dates(
    action: FetchAction,
    address: Seq<char>,
    date: String,
    target: CalendarDate,
    today: CalendarDate,
    requested: Option<Provider>,
    stored_default: Result<Option<Provider>, StoreError>,
    stored: Result<Option<Credentials>, StoreError>,
)
    requires
        ymd_parse(date@) == Some(target),
        day_number(target) < day_number(today),
        plans(action, address, offset_from(ymd_parse(date@), today), requested, stored_default, stored),
    ensures
        action == FetchAction::Finish(Err(WeatherError::DateInPast)),
{
}

/// Text that does not read as a date ends the request with `InvalidDateFormat`, whatever
/// today is and whatever the store holds.
pub proof fn lemma_service_refuses_malformed_dates(
    action: FetchAction,
    address: Seq<char>,
    date: String,
    offset: Result<u32, WeatherError>,
    requested: Option<Provider>,
    stored_default: Result<Option<Provider>, StoreError>,
    stored: Result<Option<Credentials>, StoreError>,
)
    requires
        ymd_parse(date@) is None,
        possible_offset(Some(date), offset),
        plans(action, address, offset, requested, stored_default, stored),
    ensures
        action == FetchAction::Finish(Err(WeatherError::InvalidDateFormat)),
{
}

/// With no provider requested and no default stored, a request with an accepted date ends
/// with `NoProviderConfigured`; with a default stored, it goes on exactly as if that default
/// had been requested.
pub proof fn lemma_default_provider_used(
    action: FetchAction,
    address: Seq<char>,
    days: u32,
    default: Provider,
    other_default: Result<Option<Provider>, StoreError>,
    stored: Result<Option<Credentials>, StoreError>,
)
    ensures
        plans(action, address, Ok(days), None, Ok(None), stored)
            <==> action == FetchAction::Finish(Err(WeatherError::NoProviderConfigured)),
        plans(action, address, Ok(days), None, Ok(Some(default)), stored)
            <==> plans(action, address, Ok(days), Some(default), other_default, stored),
{
}

} // verus!
