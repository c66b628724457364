use vstd::prelude::*;

use crate::accu_weather::{
    accu_weather_report, all_dates_readable, bearer_headers, is_accu_weather_report, is_forecast_request,
    is_location_request, pick_location, AccuWeatherClient, AccuWeatherDay, AccuWeatherLocation,
};
use crate::credentials::Credentials;
use crate::error::{horizon_days, WeatherError};
use crate::http::{pairs_view, HttpRequest, ResponseKind};
use crate::provider::Provider;
use crate::report::WeatherReport;
use crate::weather_api::{
    is_weather_api_report, is_weather_api_request, weather_api_report, WeatherApiClient,
    WeatherApiForecast,
};

verus! {

/// A client of one provider, holding its credentials.
#[derive(Debug, Clone, PartialEq, Eq)]
pub enum ProviderClient {
    WeatherApi(WeatherApiClient),
    AccuWeather(AccuWeatherClient),
}

/// A response body, read with the schema that its request expected.
#[derive(Debug, Clone, PartialEq, Eq)]
pub enum ResponseBody {
    WeatherApiForecast(WeatherApiForecast),
    AccuWeatherLocations(Vec<AccuWeatherLocation>),
    AccuWeatherForecast(Vec<AccuWeatherDay>),
}

/// What a forecast in progress waits for.
#[derive(Debug, Clone, PartialEq, Eq)]
pub enum FetchState {
    /// The answer of WeatherAPI's forecast endpoint.
    WeatherApiForecast { day_offset: u32 },
    /// The locations that AccuWeather's search found.
    AccuWeatherLocations { client: AccuWeatherClient, day_offset: u32 },
    /// AccuWeather's daily forecast at the resolved location.
    AccuWeatherForecast { location: AccuWeatherLocation, day_offset: u32 },
}

/// The next step of a forecast: send a request and resume in `state` with its answer, or
/// finish with a report or an error.
#[derive(Debug, PartialEq, Eq)]
pub enum FetchAction {
    Send { request: HttpRequest, state: FetchState },
    Finish(Result<WeatherReport, WeatherError>),
}

/// The client that `credentials` make for `provider`: the pairing must match.
pub open spec fn client_for(provider: Provider, credentials: Credentials) -> Result<ProviderClient, WeatherError> {
    match credentials {
        Credentials::WeatherApi { api_key } => if provider == Provider::WeatherApi {
            Ok(ProviderClient::WeatherApi(WeatherApiClient { api_key }))
        } else {
            Err(WeatherError::CredentialsProviderMismatch { provider })
        },
        Credentials::AccuWeather { api_key } => if provider == Provider::AccuWeather {
            Ok(ProviderClient::AccuWeather(AccuWeatherClient { api_key }))
        } else {
            Err(WeatherError::CredentialsProviderMismatch { provider })
        },
    }
}

/// `action` is how `client` begins the forecast for `address`, `day_offset` days from today.
pub open spec fn starts_fetch(client: ProviderClient, address: Seq<char>, day_offset: u32, action: FetchAction) -> bool {
    match client {
        ProviderClient::WeatherApi(c) => if day_offset >= horizon_days(Provider::WeatherApi) {
            action == FetchAction::Finish(Err(WeatherError::HorizonExceeded { provider: Provider::WeatherApi }))
        } else {
            action matches FetchAction::Send { request, state }
                && is_weather_api_request(request, c.api_key@, address, day_offset)
                && state == (FetchState::WeatherApiForecast { day_offset })
        },
        ProviderClient::AccuWeather(c) => if day_offset >= horizon_days(Provider::AccuWeather) {
            action == FetchAction::Finish(Err(WeatherError::HorizonExceeded { provider: Provider::AccuWeather }))
        } else {
            action matches FetchAction::Send { request, state }
                && is_location_request(request, c.api_key@, address)
                && (state matches FetchState::AccuWeatherLocations { client, day_offset: d }
                    && client.api_key@ == c.api_key@ && d == day_offset)
        },
    }
}

/// The error for a body read with another schema than the state waits for.
pub open spec fn is_unexpected_body(action: FetchAction) -> bool {
    action matches FetchAction::Finish(Err(WeatherError::UpstreamSchemaError { .. }))
}

/// `action` is how a forecast waiting in `state` goes on once `response` came back.
pub open spec fn resumes(state: FetchState, response: Result<ResponseBody, WeatherError>, action: FetchAction) -> bool {
    match response {
        Err(e) => action == FetchAction::Finish(Err(e)),
        Ok(body) => match state {
            FetchState::WeatherApiForecast { day_offset } => match body {
                ResponseBody::WeatherApiForecast(forecast) => if day_offset >= forecast.days@.len() {
                    action == FetchAction::Finish(Err(WeatherError::AddressNotFound))
                } else {
                    action matches FetchAction::Finish(Ok(report))
                        && is_weather_api_report(report, forecast, forecast.days@[day_offset as int])
                },
                _ => is_unexpected_body(action),
            },
            FetchState::AccuWeatherLocations { client, day_offset } => match body {
                ResponseBody::AccuWeatherLocations(locations) => if locations@.len() == 0 {
                    action == FetchAction::Finish(Err(WeatherError::AddressNotFound))
                } else {
                    action matches FetchAction::Send { request, state }
                        && is_forecast_request(request, client.api_key@, locations@.last().key@)
                        && state == (FetchState::AccuWeatherForecast { location: locations@.last(), day_offset })
                },
                _ => is_unexpected_body(action),
            },
            FetchState::AccuWeatherForecast { location, day_offset } => match body {
                ResponseBody::AccuWeatherForecast(days) => if !all_dates_readable(days@) {
                    is_unexpected_body(action)
                } else if day_offset >= days@.len() {
                    action == FetchAction::Finish(Err(WeatherError::AddressNotFound))
                } else {
                    action matches FetchAction::Finish(Ok(report))
                        && is_accu_weather_report(report, location, days@[day_offset as int])
                },
                _ => is_unexpected_body(action),
            },
        },
    }
}

fn unexpected_body() -> (r: FetchAction)
    ensures
        is_unexpected_body(r),
{
    FetchAction::Finish(Err(WeatherError::UpstreamSchemaError {
        message: "response body does not match the request".to_string(),
    }))
}

impl ProviderClient {
    /// The provider that this client talks to.
    pub open spec fn talks_to(&self) -> Provider {
        match self {
            ProviderClient::WeatherApi(_) => Provider::WeatherApi,
            ProviderClient::AccuWeather(_) => Provider::AccuWeather,
        }
    }

    pub fn provider(&self) -> (r: Provider)
        ensures
            r == self.talks_to(),
    {
        match self {
            ProviderClient::WeatherApi(_) => Provider::WeatherApi,
            ProviderClient::AccuWeather(_) => Provider::AccuWeather,
        }
    }

    /// Begins the forecast for `address`, `day_offset` days from today. A provider that does
    /// not forecast that far is refused before any request.
    pub fn get_weather(&self, address: &str, day_offset: u32) -> (r: FetchAction)
        ensures
            starts_fetch(*self, address@, day_offset, r),
    {
        match self {
            ProviderClient::WeatherApi(client) => match client.forecast_request(address, day_offset) {
                Ok(request) => FetchAction::Send {
                    request,
                    state: FetchState::WeatherApiForecast { day_offset },
                },
                Err(e) => FetchAction::Finish(Err(e)),
            },
            ProviderClient::AccuWeather(client) => match AccuWeatherClient::check_horizon(day_offset) {
                Ok(()) => FetchAction::Send {
                    request: client.location_request(address),
                    state: FetchState::AccuWeatherLocations {
                        client: AccuWeatherClient::new(client.api_key.clone()),
                        day_offset,
                    },
                },
                Err(e) => FetchAction::Finish(Err(e)),
            },
        }
    }
}

impl FetchState {
    /// Goes on with the answer to the request sent on entering this state: a transport or
    /// schema failure ends the forecast unchanged.
    pub fn resume(self, response: Result<ResponseBody, WeatherError>) -> (r: FetchAction)
        ensures
            resumes(self, response, r),
    {
        match response {
            Err(e) => FetchAction::Finish(Err(e)),
            Ok(body) => match self {
                FetchState::WeatherApiForecast { day_offset } => match body {
                    ResponseBody::WeatherApiForecast(forecast) => FetchAction::Finish(weather_api_report(&forecast, day_offset)),
                    _ => unexpected_body(),
                },
                FetchState::AccuWeatherLocations { client, day_offset } => match body {
                    ResponseBody::AccuWeatherLocations(locations) => match pick_location(locations) {
                        Ok(location) => FetchAction::Send {
                            request: client.forecast_request(&location),
                            state: FetchState::AccuWeatherForecast { location, day_offset },
                        },
                        Err(e) => FetchAction::Finish(Err(e)),
                    },
                    _ => unexpected_body(),
                },
                FetchState::AccuWeatherForecast { location, day_offset } => match body {
                    ResponseBody::AccuWeatherForecast(days) => FetchAction::Finish(accu_weather_report(&location, &days, day_offset)),
                    _ => unexpected_body(),
                },
            },
        }
    }
}

/// Makes provider clients out of credentials.
pub trait ProviderClientFactory {
    /// The client for `provider`; credentials of another provider are refused.
    fn create_client(&self, provider: Provider, credentials: Credentials) -> (r: Result<ProviderClient, WeatherError>)
        ensures
            r == client_for(provider, credentials),
    ;
}

/// The factory of clients that talk to the providers over HTTP.
#[derive(Debug)]
pub struct HttpProviderClientFactory;

impl HttpProviderClientFactory {
    pub fn new() -> Self {
        HttpProviderClientFactory
    }
}

impl Default for HttpProviderClientFactory {
    fn default() -> Self {
        HttpProviderClientFactory::new()
    }
}

impl ProviderClientFactory for HttpProviderClientFactory {
    fn create_client(&self, provider: Provider, credentials: Credentials) -> (r: Result<ProviderClient, WeatherError>) {
        match credentials {
            Credentials::WeatherApi { api_key } => match provider {
                Provider::WeatherApi => Ok(ProviderClient::WeatherApi(WeatherApiClient::new(api_key))),
                _ => Err(WeatherError::CredentialsProviderMismatch { provider }),
            },
            Credentials::AccuWeather { api_key } => match provider {
                Provider::AccuWeather => Ok(ProviderClient::AccuWeather(AccuWeatherClient::new(api_key))),
                _ => Err(WeatherError::CredentialsProviderMismatch { provider }),
            },
        }
    }
}

/// WeatherAPI forecasts up to thirteen days past today: a WeatherAPI client sends its request
/// for every offset up to thirteen and refuses every offset from fourteen on, fifteen included,
/// with `HorizonExceeded` and without a request.
pub proof fn lemma_weather_api_horizon(client: WeatherApiClient, address: Seq<char>, day_offset: u32, action: FetchAction)
    requires
        starts_fetch(ProviderClient::WeatherApi(client), address, day_offset, action),
    ensures
        day_offset <= 13 ==> (action matches FetchAction::Send { request, .. }
            && request.expects == ResponseKind::WeatherApiForecast),
        day_offset >= 14 ==> action == FetchAction::Finish(
            Err(WeatherError::HorizonExceeded { provider: Provider::WeatherApi }),
        ),
{
}

/// AccuWeather forecasts up to four days past today: an AccuWeather client searches for the
/// location for every offset up to four, and refuses every offset from five on with
/// `HorizonExceeded` before any request, the location search included.
pub proof fn lemma_accu_weather_horizon(client: AccuWeatherClient, address: Seq<char>, day_offset: u32, action: FetchAction)
    requires
        starts_fetch(ProviderClient::AccuWeather(client), address, day_offset, action),
    ensures
        day_offset <= 4 ==> (action matches FetchAction::Send { request, .. }
            && request.expects == ResponseKind::AccuWeatherLocations),
        day_offset >= 5 ==> action == FetchAction::Finish(
            Err(WeatherError::HorizonExceeded { provider: Provider::AccuWeather }),
        ),
{
}

/// Credentials of another provider never make a client: the factory refuses them with
/// `CredentialsProviderMismatch`, naming the requested provider.
pub proof fn lemma_mismatched_credentials_refused(provider: Provider, credentials: Credentials)
    requires
        credentials.belongs_to() != provider,
    ensures
        client_for(provider, credentials) == Err::<ProviderClient, WeatherError>(
            WeatherError::CredentialsProviderMismatch { provider },
        ),
{
}

/// A client made for a provider from that provider's credentials talks to that provider and
/// authenticates its first request in that provider's way: WeatherAPI with the key as the
/// `key` query parameter and no header, AccuWeather with a bearer header and no `key`
/// parameter.
pub proof fn lemma_client_authenticates(provider: Provider, credentials: Credentials, address: Seq<char>, day_offset: u32, client: ProviderClient, action: FetchAction)
    requires
        credentials.belongs_to() == provider,
        client_for(provider, credentials) == Ok::<ProviderClient, WeatherError>(client),
        day_offset < horizon_days(provider),
        starts_fetch(client, address, day_offset, action),
    ensures
        client.talks_to() == provider,
        action matches FetchAction::Send { request, .. } && ({
            let query = pairs_view(request.query@);
            let headers = pairs_view(request.headers@);
            &&& provider == Provider::WeatherApi ==> query[0] == ("key"@, credentials.key()) && headers.len() == 0
            &&& provider == Provider::AccuWeather ==> headers == bearer_headers(credentials.key())
                && forall|i: int| 0 <= i < query.len() ==> (#[trigger] query[i]).0 != "key"@
        }),
{
    reveal_strlit("key");
    reveal_strlit("q");
    if let FetchAction::Send { request, .. } = action {
        let query = pairs_view(request.query@);
        if provider == Provider::WeatherApi {
            assert(query[0] == ("key"@, credentials.key()));
        } else {
            assert(query.len() == 1);
            assert(query[0].0 == "q"@);
            assert(query[0].0.len() != "key"@.len());
        }
    }
}

/// The second request of an AccuWeather forecast, for the last location found, carries the
/// same bearer header as the first.
pub proof fn lemma_accu_weather_forecast_authenticates(client: AccuWeatherClient, address: Seq<char>, day_offset: u32, first: FetchAction, locations: Vec<AccuWeatherLocation>, second: FetchAction)
    requires
        starts_fetch(ProviderClient::AccuWeather(client), address, day_offset, first),
        first matches FetchAction::Send { state, .. }
            && resumes(state, Ok(ResponseBody::AccuWeatherLocations(locations)), second),
        locations@.len() > 0,
    ensures
        second matches FetchAction::Send { request, .. }
            && pairs_view(request.headers@) == bearer_headers(client.api_key@)
            && request.url@ == crate::accu_weather::ACCU_WEATHER_FORECAST_URL@ + locations@.last().key@,
{
}

} // verus!
