use vstd::prelude::*;

use crate::error::{horizon_days, WeatherError};
use crate::http::{decimal, decimal_text, pairs_view, HttpRequest, ResponseKind};
use crate::provider::Provider;
use crate::report::{Temperature, WeatherReport};

verus! {

/// The forecast endpoint of WeatherAPI.
pub const WEATHER_API_FORECAST_URL: &'static str = "https://api.weatherapi.com/v1/forecast.json";

/// A WeatherAPI client: it authenticates with its key as the `key` query parameter.
#[derive(Debug, Clone, PartialEq, Eq)]
pub struct WeatherApiClient {
    pub api_key: String,
}

/// One day of a WeatherAPI forecast.
#[derive(Debug, Clone, PartialEq, Eq)]
pub struct WeatherApiDay {
    pub date: String,
    pub max_temperature: Temperature,
    pub min_temperature: Temperature,
    pub condition: String,
}

/// The parts of a WeatherAPI forecast response that reports are made of.
#[derive(Debug, Clone, PartialEq, Eq)]
pub struct WeatherApiForecast {
    pub location_name: String,
    pub country: String,
    pub days: Vec<WeatherApiDay>,
}

/// `request` asks WeatherAPI for `day_offset + 1` days of forecast for `address`.
pub open spec fn is_weather_api_request(request: HttpRequest, api_key: Seq<char>, address: Seq<char>, day_offset: u32) -> bool {
    &&& request.url@ == WEATHER_API_FORECAST_URL@
    &&& pairs_view(request.query@) == seq![
        ("key"@, api_key),
        ("q"@, address),
        ("days"@, decimal(day_offset as nat + 1)),
    ]
    &&& request.headers@.len() == 0
    &&& request.expects == ResponseKind::WeatherApiForecast
}

/// `report` is the forecast day `day` of `body`, in the common form.
pub open spec fn is_weather_api_report(report: WeatherReport, body: WeatherApiForecast, day: WeatherApiDay) -> bool {
    &&& report.provider == Provider::WeatherApi
    &&& report.date@ == day.date@
    &&& report.location@ == body.location_name@ + ", "@ + body.country@
    &&& report.description@ == day.condition@
    &&& report.max_temperature == day.max_temperature
    &&& report.min_temperature == day.min_temperature
}

impl WeatherApiClient {
    pub fn new(api_key: String) -> (r: Self)
        ensures
            r.api_key == api_key,
    {
        WeatherApiClient { api_key }
    }

    /// The request for the forecast of `day_offset` days from today, if WeatherAPI forecasts
    /// that far.
    pub fn forecast_request(&self, address: &str, day_offset: u32) -> (r: Result<HttpRequest, WeatherError>)
        ensures
            day_offset >= horizon_days(Provider::WeatherApi) ==> r == Err::<HttpRequest, WeatherError>(
                WeatherError::HorizonExceeded { provider: Provider::WeatherApi },
            ),
            day_offset < horizon_days(Provider::WeatherApi) ==> (r matches Ok(request)
                && is_weather_api_request(request, self.api_key@, address@, day_offset)),
    {
        if day_offset >= 14 {
            return Err(WeatherError::HorizonExceeded { provider: Provider::WeatherApi });
        }
        let mut query: Vec<(String, String)> = Vec::new();
        query.push(("key".to_string(), self.api_key.clone()));
        query.push(("q".to_string(), address.to_string()));
        query.push(("days".to_string(), decimal_text(day_offset + 1)));
        let request = HttpRequest {
            url: WEATHER_API_FORECAST_URL.to_string(),
            query,
            headers: Vec::new(),
            expects: ResponseKind::WeatherApiForecast,
        };
        assert(pairs_view(request.query@) =~= seq![
            ("key"@, self.api_key@),
            ("q"@, address@),
            ("days"@, decimal(day_offset as nat + 1)),
        ]);
        Ok(request)
    }
}

/// The report for the day `day_offset` days from today out of a WeatherAPI forecast.
pub fn weather_api_report(body: &WeatherApiForecast, day_offset: u32) -> (r: Result<WeatherReport, WeatherError>)
    ensures
        day_offset >= body.days@.len() ==> r == Err::<WeatherReport, WeatherError>(WeatherError::AddressNotFound),
        day_offset < body.days@.len() ==> (r matches Ok(report)
            && is_weather_api_report(report, *body, body.days@[day_offset as int])),
{
    if day_offset as usize >= body.days.len() {
        return Err(WeatherError::AddressNotFound);
    }
    let day = &body.days[day_offset as usize];
    let mut location = body.location_name.clone();
    location.append(", ");
    location.append(body.country.as_str());
    Ok(WeatherReport {
        provider: Provider::WeatherApi,
        date: day.date.clone(),
        location,
        description: day.condition.clone(),
        max_temperature: day.max_temperature,
        min_temperature: day.min_temperature,
    })
}

} // verus!
