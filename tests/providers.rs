use chrono::{Duration, Local};
use std::collections::HashMap;
use wezzapp::accu_weather::{pick_location, AccuWeatherClient, AccuWeatherDay, AccuWeatherLocation};
use wezzapp::apis::{
    FetchAction, HttpProviderClientFactory, ProviderClient, ProviderClientFactory, ResponseBody,
};
use wezzapp::credentials::{Credentials, CredentialsStore};
use wezzapp::error::{StoreError, WeatherError};
use wezzapp::http::{decimal_text, HttpRequest, ResponseKind};
use wezzapp::provider::Provider;
use wezzapp::report::{Temperature, WeatherReport};
use wezzapp::weather_api::{weather_api_report, WeatherApiClient, WeatherApiDay, WeatherApiForecast};
use wezzapp::weather_service::WeatherService;

struct FixedStore {
    default: Result<Option<Provider>, StoreError>,
    credentials: HashMap<Provider, Credentials>,
}

impl CredentialsStore for FixedStore {
    fn set_credentials(&mut self, provider: Provider, credentials: &Credentials) -> Result<(), StoreError> {
        self.credentials.insert(provider, credentials.clone());
        Ok(())
    }

    fn get_credentials(&self, provider: Provider) -> Result<Option<Credentials>, StoreError> {
        Ok(self.credentials.get(&provider).cloned())
    }

    fn set_default_provider(&mut self, provider: Provider) -> Result<(), StoreError> {
        self.default = Ok(Some(provider));
        Ok(())
    }

    fn get_default_provider(&self) -> Result<Option<Provider>, StoreError> {
        self.default.clone()
    }
}

fn store_with(default: Option<Provider>, entries: Vec<Credentials>) -> FixedStore {
    let mut credentials = HashMap::new();
    for c in entries {
        credentials.insert(c.provider(), c);
    }
    FixedStore { default: Ok(default), credentials }
}

/// Runs a forecast to its end, answering the requests in turn and recording them.
fn drive(
    mut action: FetchAction,
    answers: Vec<Result<ResponseBody, WeatherError>>,
    sent: &mut Vec<HttpRequest>,
) -> Result<WeatherReport, WeatherError> {
    let mut answers = answers.into_iter();
    loop {
        match action {
            FetchAction::Finish(result) => return result,
            FetchAction::Send { request, state } => {
                sent.push(request);
                action = state.resume(answers.next().expect("an answer for each request"));
            }
        }
    }
}

fn pairs(items: &[(&str, &str)]) -> Vec<(String, String)> {
    items.iter().map(|(a, b)| (a.to_string(), b.to_string())).collect()
}

fn celsius(millidegrees: i64) -> Temperature {
    Temperature { millidegrees }
}

fn weather_api_day(date: &str, condition: &str) -> WeatherApiDay {
    WeatherApiDay {
        date: date.to_string(),
        max_temperature: celsius(12_300),
        min_temperature: celsius(-1_500),
        condition: condition.to_string(),
    }
}

fn accu_location(key: &str, name: &str) -> AccuWeatherLocation {
    AccuWeatherLocation {
        key: key.to_string(),
        localized_name: name.to_string(),
        country_name: "Ukraine".to_string(),
    }
}

fn accu_day(date: &str, minimum: i64, maximum: i64) -> AccuWeatherDay {
    AccuWeatherDay {
        date: date.to_string(),
        minimum: celsius(minimum),
        maximum: celsius(maximum),
        day_phrase: "Sunny".to_string(),
        night_phrase: "Clear".to_string(),
    }
}

#[test]
fn weather_api_request_for_kyiv_today_and_its_report() {
    let store = store_with(None, vec![Credentials::WeatherApi { api_key: "XYZ".to_string() }]);
    let mut service = WeatherService::new(store, HttpProviderClientFactory::new());
    let action = service.get_weather("Kyiv, Ukraine".to_string(), None, Some(Provider::WeatherApi));

    let body = WeatherApiForecast {
        location_name: "Kyiv".to_string(),
        country: "Ukraine".to_string(),
        days: vec![weather_api_day("2024-11-29", "Light snow")],
    };
    let mut sent = Vec::new();
    let report = drive(action, vec![Ok(ResponseBody::WeatherApiForecast(body))], &mut sent).unwrap();

    assert_eq!(sent.len(), 1);
    assert_eq!(sent[0].url, "https://api.weatherapi.com/v1/forecast.json");
    assert_eq!(sent[0].query, pairs(&[("key", "XYZ"), ("q", "Kyiv, Ukraine"), ("days", "1")]));
    assert!(sent[0].headers.is_empty());
    assert_eq!(sent[0].expects, ResponseKind::WeatherApiForecast);
    assert_eq!(
        report,
        WeatherReport {
            provider: Provider::WeatherApi,
            date: "2024-11-29".to_string(),
            location: "Kyiv, Ukraine".to_string(),
            description: "Light snow".to_string(),
            max_temperature: celsius(12_300),
            min_temperature: celsius(-1_500),
        }
    );
}

#[test]
fn accu_weather_forecast_uses_last_location_found() {
    let store = store_with(None, vec![Credentials::AccuWeather { api_key: "ACCU".to_string() }]);
    let mut service = WeatherService::new(store, HttpProviderClientFactory::new());
    let date = (Local::now().date_naive() + Duration::days(4)).format("%Y-%m-%d").to_string();
    let action = service.get_weather("Lviv".to_string(), Some(date), Some(Provider::AccuWeather));

    let locations = vec![accu_location("111", "Lviv (first)"), accu_location("222", "Lviv")];
    let days = vec![
        accu_day("2024-11-25T07:00:00+02:00", 0, 1_000),
        accu_day("2024-11-26T07:00:00+02:00", 0, 1_000),
        accu_day("2024-11-27T07:00:00+02:00", 0, 1_000),
        accu_day("2024-11-28T07:00:00+02:00", 0, 1_000),
        accu_day("2024-11-29T07:00:00+02:00", -2_000, 3_500),
    ];
    let mut sent = Vec::new();
    let report = drive(
        action,
        vec![
            Ok(ResponseBody::AccuWeatherLocations(locations)),
            Ok(ResponseBody::AccuWeatherForecast(days)),
        ],
        &mut sent,
    )
    .unwrap();

    assert_eq!(sent.len(), 2);
    assert_eq!(sent[0].url, "https://dataservice.accuweather.com/locations/v1/search");
    assert_eq!(sent[0].query, pairs(&[("q", "Lviv")]));
    assert_eq!(
        sent[1].url,
        "https://dataservice.accuweather.com/forecasts/v1/daily/5day/222"
    );
    assert_eq!(sent[1].query, pairs(&[("metric", "true")]));
    assert_eq!(
        report,
        WeatherReport {
            provider: Provider::AccuWeather,
            date: "2024-11-29".to_string(),
            location: "Lviv, Ukraine".to_string(),
            description: "Day: Sunny, Night: Clear".to_string(),
            max_temperature: celsius(3_500),
            min_temperature: celsius(-2_000),
        }
    );
}

#[test]
fn weather_api_horizon_boundary() {
    let client = ProviderClient::WeatherApi(WeatherApiClient::new("K".to_string()));
    match client.get_weather("Kyiv", 13) {
        FetchAction::Send { request, .. } => {
            assert_eq!(request.query[2], ("days".to_string(), "14".to_string()))
        }
        FetchAction::Finish(r) => panic!("offset 13 refused: {r:?}"),
    }
    for offset in [14, 15, 100] {
        assert_eq!(
            client.get_weather("Kyiv", offset),
            FetchAction::Finish(Err(WeatherError::HorizonExceeded { provider: Provider::WeatherApi }))
        );
    }
}

#[test]
fn accu_weather_horizon_is_checked_before_any_request() {
    let client = ProviderClient::AccuWeather(AccuWeatherClient::new("K".to_string()));
    let mut sent = Vec::new();
    let result = drive(client.get_weather("Lviv", 5), vec![], &mut sent);
    assert_eq!(result, Err(WeatherError::HorizonExceeded { provider: Provider::AccuWeather }));
    assert_eq!(sent.len(), 0);

    let mut sent = Vec::new();
    let result = drive(
        client.get_weather("Lviv", 4),
        vec![Ok(ResponseBody::AccuWeatherLocations(vec![]))],
        &mut sent,
    );
    assert_eq!(result, Err(WeatherError::AddressNotFound));
    assert_eq!(sent.len(), 1);
    assert_eq!(sent[0].expects, ResponseKind::AccuWeatherLocations);
}

#[test]
fn mismatched_credentials_make_no_client() {
    let factory = HttpProviderClientFactory::new();
    assert_eq!(
        factory.create_client(Provider::WeatherApi, Credentials::AccuWeather { api_key: "A".to_string() }),
        Err(WeatherError::CredentialsProviderMismatch { provider: Provider::WeatherApi })
    );
    assert_eq!(
        factory.create_client(Provider::AccuWeather, Credentials::WeatherApi { api_key: "W".to_string() }),
        Err(WeatherError::CredentialsProviderMismatch { provider: Provider::AccuWeather })
    );
    assert_eq!(
        factory.create_client(Provider::AccuWeather, Credentials::AccuWeather { api_key: "A".to_string() }),
        Ok(ProviderClient::AccuWeather(AccuWeatherClient::new("A".to_string())))
    );
}

#[test]
fn each_client_authenticates_its_own_way() {
    let factory = HttpProviderClientFactory::default();
    let weather_api = factory
        .create_client(Provider::WeatherApi, Credentials::WeatherApi { api_key: "W-KEY".to_string() })
        .unwrap();
    assert_eq!(weather_api.provider(), Provider::WeatherApi);
    match weather_api.get_weather("Odesa", 2) {
        FetchAction::Send { request, .. } => {
            assert_eq!(request.query, pairs(&[("key", "W-KEY"), ("q", "Odesa"), ("days", "3")]));
            assert!(request.headers.is_empty());
        }
        other => panic!("no request: {other:?}"),
    }

    let accu = factory
        .create_client(Provider::AccuWeather, Credentials::AccuWeather { api_key: "A-KEY".to_string() })
        .unwrap();
    assert_eq!(accu.provider(), Provider::AccuWeather);
    let mut sent = Vec::new();
    let _ = drive(
        accu.get_weather("Odesa", 0),
        vec![
            Ok(ResponseBody::AccuWeatherLocations(vec![accu_location("9", "Odesa")])),
            Ok(ResponseBody::AccuWeatherForecast(vec![accu_day("2024-11-25T07:00:00Z", 0, 0)])),
        ],
        &mut sent,
    );
    assert_eq!(sent.len(), 2);
    for request in &sent {
        assert_eq!(request.headers, pairs(&[("Authorization", "Bearer A-KEY")]));
        assert!(request.query.iter().all(|(name, _)| name != "key"));
    }
}

#[test]
fn provider_comes_from_request_or_stored_default() {
    let mut service = WeatherService::new(store_with(None, vec![]), HttpProviderClientFactory::new());
    assert_eq!(
        service.get_weather("Kyiv".to_string(), None, None),
        FetchAction::Finish(Err(WeatherError::NoProviderConfigured))
    );

    let store = store_with(
        Some(Provider::AccuWeather),
        vec![
            Credentials::AccuWeather { api_key: "A".to_string() },
            Credentials::WeatherApi { api_key: "W".to_string() },
        ],
    );
    let mut service = WeatherService::new(store, HttpProviderClientFactory::new());
    match service.get_weather("Kyiv".to_string(), None, None) {
        FetchAction::Send { request, .. } => {
            assert_eq!(request.expects, ResponseKind::AccuWeatherLocations)
        }
        other => panic!("no request: {other:?}"),
    }
    match service.get_weather("Kyiv".to_string(), None, Some(Provider::WeatherApi)) {
        FetchAction::Send { request, .. } => {
            assert_eq!(request.expects, ResponseKind::WeatherApiForecast)
        }
        other => panic!("no request: {other:?}"),
    }
}

#[test]
fn service_reports_each_early_failure() {
    let mut service = WeatherService::new(store_with(None, vec![]), HttpProviderClientFactory::new());
    assert_eq!(
        service.get_weather("Kyiv".to_string(), None, Some(Provider::AccuWeather)),
        FetchAction::Finish(Err(WeatherError::CredentialsNotConfigured { provider: Provider::AccuWeather }))
    );
    assert_eq!(
        service.get_weather("Kyiv".to_string(), Some("29.11.2024".to_string()), Some(Provider::AccuWeather)),
        FetchAction::Finish(Err(WeatherError::InvalidDateFormat))
    );
    assert_eq!(
        service.get_weather("Kyiv".to_string(), Some("2001-01-01".to_string()), None),
        FetchAction::Finish(Err(WeatherError::DateInPast))
    );

    let failing = FixedStore {
        default: Err(StoreError { message: "disk on fire".to_string() }),
        credentials: HashMap::new(),
    };
    let mut service = WeatherService::new(failing, HttpProviderClientFactory::new());
    assert_eq!(
        service.get_weather("Kyiv".to_string(), None, None),
        FetchAction::Finish(Err(WeatherError::StoreFailure(StoreError { message: "disk on fire".to_string() })))
    );
}

#[test]
fn upstream_failures_end_the_forecast() {
    let client = ProviderClient::WeatherApi(WeatherApiClient::new("K".to_string()));
    let transport = WeatherError::UpstreamTransportError { message: "timed out".to_string() };
    let mut sent = Vec::new();
    assert_eq!(drive(client.get_weather("Kyiv", 0), vec![Err(transport.clone())], &mut sent), Err(transport));

    let mut sent = Vec::new();
    let result = drive(
        client.get_weather("Kyiv", 0),
        vec![Ok(ResponseBody::AccuWeatherLocations(vec![]))],
        &mut sent,
    );
    assert!(matches!(result, Err(WeatherError::UpstreamSchemaError { .. })));

    let mut sent = Vec::new();
    let result = drive(
        client.get_weather("Kyiv", 1),
        vec![Ok(ResponseBody::WeatherApiForecast(WeatherApiForecast {
            location_name: "Kyiv".to_string(),
            country: "Ukraine".to_string(),
            days: vec![weather_api_day("2024-11-29", "Rain")],
        }))],
        &mut sent,
    );
    assert_eq!(result, Err(WeatherError::AddressNotFound));
}

#[test]
fn accu_weather_refuses_malformed_timestamps() {
    let client = ProviderClient::AccuWeather(AccuWeatherClient::new("K".to_string()));
    let mut sent = Vec::new();
    let result = drive(
        client.get_weather("Lviv", 0),
        vec![
            Ok(ResponseBody::AccuWeatherLocations(vec![accu_location("1", "Lviv")])),
            Ok(ResponseBody::AccuWeatherForecast(vec![
                accu_day("2024-11-25T07:00:00+02:00", 0, 0),
                accu_day("2024-11-26", 0, 0),
            ])),
        ],
        &mut sent,
    );
    assert_eq!(
        result,
        Err(WeatherError::UpstreamSchemaError {
            message: "AccuWeather forecast holds a malformed date".to_string()
        })
    );
}

#[test]
fn translations_pick_the_requested_entries() {
    assert_eq!(pick_location(vec![]), Err(WeatherError::AddressNotFound));
    assert_eq!(
        pick_location(vec![accu_location("1", "A"), accu_location("2", "B"), accu_location("3", "C")]),
        Ok(accu_location("3", "C"))
    );
    let body = WeatherApiForecast {
        location_name: "Kyiv".to_string(),
        country: "Ukraine".to_string(),
        days: vec![weather_api_day("2024-11-29", "Rain"), weather_api_day("2024-11-30", "Fog")],
    };
    let report = weather_api_report(&body, 1).unwrap();
    assert_eq!(report.date, "2024-11-30");
    assert_eq!(report.description, "Fog");
    assert_eq!(weather_api_report(&body, 2), Err(WeatherError::AddressNotFound));
}

#[test]
fn decimal_text_writes_digits() {
    assert_eq!(decimal_text(0), "0");
    assert_eq!(decimal_text(7), "7");
    assert_eq!(decimal_text(14), "14");
    assert_eq!(decimal_text(4_294_967_295), "4294967295");
}

#[test]
fn error_messages_name_the_context() {
    assert_eq!(
        WeatherError::CredentialsNotConfigured { provider: Provider::AccuWeather }.to_string(),
        "No credentials found for provider `AccuWeather`. Please configure it first."
    );
    assert_eq!(
        WeatherError::CredentialsProviderMismatch { provider: Provider::WeatherApi }.to_string(),
        "credentials type does not match provider: WeatherApi"
    );
    assert!(WeatherError::HorizonExceeded { provider: Provider::WeatherApi }
        .to_string()
        .contains("14 days"));
    assert!(WeatherError::HorizonExceeded { provider: Provider::AccuWeather }
        .to_string()
        .contains("5 days"));
    assert!(WeatherError::NoProviderConfigured.to_string().contains("no default provider"));
    assert!(WeatherError::AddressNotFound.to_string().contains("Address not found"));
    assert_eq!(
        WeatherError::UpstreamTransportError { message: "503".to_string() }.to_string(),
        "503"
    );
    assert_eq!(
        WeatherError::StoreFailure(StoreError { message: "locked".to_string() }).to_string(),
        "locked"
    );
}

#[test]
fn accu_weather_report_keeps_the_written_calendar_date() {
    let location = accu_location("1", "Lviv");
    let days = vec![
        accu_day("2024-11-29T23:30:00-05:00", 0, 0),
        accu_day("2024-12-01 00:15:00Z", 0, 0),
        accu_day("2024-12-31t23:59:60+14:00", 0, 0),
    ];
    let dates: Vec<String> = (0..3)
        .map(|i| wezzapp::accu_weather::accu_weather_report(&location, &days, i).unwrap().date)
        .collect();
    assert_eq!(dates, vec!["2024-11-29", "2024-12-01", "2024-12-31"]);
}
