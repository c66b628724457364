use vstd::prelude::*;

use crate::error::{horizon_days, WeatherError};
use crate::http::{pairs_view, HttpRequest, ResponseKind};
use crate::provider::Provider;
use crate::report::{Temperature, WeatherReport};

verus! {

/// The location search endpoint of AccuWeather.
pub const ACCU_WEATHER_SEARCH_URL: &'static str = "https://dataservice.accuweather.com/locations/v1/search";

/// The daily forecast endpoint of AccuWeather, followed by a location key.
pub const ACCU_WEATHER_FORECAST_URL: &'static str = "https://dataservice.accuweather.com/forecasts/v1/daily/5day/";

/// An AccuWeather client: it authenticates with an `Authorization: Bearer <key>` header.
#[derive(Debug, Clone, PartialEq, Eq)]
pub struct AccuWeatherClient {
    pub api_key: String,
}

/// A location that AccuWeather's search found.
#[derive(Debug, Clone, PartialEq, Eq)]
pub struct AccuWeatherLocation {
    pub key: String,
    pub localized_name: String,
    pub country_name: String,
}

/// One day of an AccuWeather daily forecast.
#[derive(Debug, Clone, PartialEq, Eq)]
pub struct AccuWeatherDay {
    /// An RFC 3339 timestamp.
    pub date: String,
    pub minimum: Temperature,
    pub maximum: Temperature,
    pub day_phrase: String,
    pub night_phrase: String,
}

/// The header that carries `api_key`.
pub open spec fn bearer_headers(api_key: Seq<char>) -> Seq<(Seq<char>, Seq<char>)> {
    seq![("Authorization"@, "Bearer "@ + api_key)]
}

/// `request` searches AccuWeather for the locations that match `address`.
pub open spec fn is_location_request(request: HttpRequest, api_key: Seq<char>, address: Seq<char>) -> bool {
    &&& request.url@ == ACCU_WEATHER_SEARCH_URL@
    &&& pairs_view(request.query@) == seq![("q"@, address)]
    &&& pairs_view(request.headers@) == bearer_headers(api_key)
    &&& request.expects == ResponseKind::AccuWeatherLocations
}

/// `request` asks AccuWeather for the five-day metric forecast at the location `key`.
pub open spec fn is_forecast_request(request: HttpRequest, api_key: Seq<char>, key: Seq<char>) -> bool {
    &&& request.url@ == ACCU_WEATHER_FORECAST_URL@ + key
    &&& pairs_view(request.query@) == seq![("metric"@, "true"@)]
    &&& pairs_view(request.headers@) == bearer_headers(api_key)
    &&& request.expects == ResponseKind::AccuWeatherForecast
}

/// Whether the date library reads `s` as an RFC 3339 timestamp.
pub uninterp spec fn is_rfc3339(s: Seq<char>) -> bool;

/// Relies on chrono's `DateTime::parse_from_rfc3339`, `DateTime::date_naive` and the
/// `Display` of `NaiveDate`: an RFC 3339 timestamp starts with its date as `YYYY-MM-DD`
/// (four, two and two digits), and that date is what is written back.
#[verifier::external_body]
fn rfc3339_date(s: &str) -> (r: Option<String>)
    ensures
        r is Some <==> is_rfc3339(s@),
        r matches Some(t) ==> s@.len() >= 10 && t@ == s@.subrange(0, 10),
{
    match chrono::DateTime::parse_from_rfc3339(s) {
        Ok(timestamp) => Some(timestamp.date_naive().to_string()),
        Err(_) => None,
    }
}

/// `report` is the forecast `day` at `location`, in the common form.
pub open spec fn is_accu_weather_report(report: WeatherReport, location: AccuWeatherLocation, day: AccuWeatherDay) -> bool {
    &&& report.provider == Provider::AccuWeather
    &&& report.date@ == day.date@.subrange(0, 10)
    &&& report.location@ == location.localized_name@ + ", "@ + location.country_name@
    &&& report.description@ == "Day: "@ + day.day_phrase@ + ", Night: "@ + day.night_phrase@
    &&& report.max_temperature == day.maximum
    &&& report.min_temperature == day.minimum
}

/// Every day of the forecast carries a readable timestamp.
pub open spec fn all_dates_readable(days: Seq<AccuWeatherDay>) -> bool {
    forall|i: int| 0 <= i < days.len() ==> is_rfc3339(#[trigger] days[i].date@)
}

fn bearer_header(api_key: &String) -> (r: Vec<(String, String)>)
    ensures
        pairs_view(r@) == bearer_headers(api_key@),
{
    let mut value = "Bearer ".to_string();
    value.append(api_key.as_str());
    let mut headers: Vec<(String, String)> = Vec::new();
    headers.push(("Authorization".to_string(), value));
    assert(pairs_view(headers@) =~= bearer_headers(api_key@));
    headers
}

impl AccuWeatherClient {
    pub fn new(api_key: String) -> (r: Self)
        ensures
            r.api_key == api_key,
    {
        AccuWeatherClient { api_key }
    }

    /// Whether AccuWeather forecasts `day_offset` days from today.
    pub fn check_horizon(day_offset: u32) -> (r: Result<(), WeatherError>)
        ensures
            r is Ok <==> day_offset < horizon_days(Provider::AccuWeather),
            r is Err ==> r == Err::<(), WeatherError>(WeatherError::HorizonExceeded { provider: Provider::AccuWeather }),
    {
        if day_offset >= 5 {
            Err(WeatherError::HorizonExceeded { provider: Provider::AccuWeather })
        } else {
            Ok(())
        }
    }

    /// The request that searches for the locations matching `address`.
    pub fn location_request(&self, address: &str) -> (r: HttpRequest)
        ensures
            is_location_request(r, self.api_key@, address@),
    {
        let mut query: Vec<(String, String)> = Vec::new();
        query.push(("q".to_string(), address.to_string()));
        assert(pairs_view(query@) =~= seq![("q"@, address@)]);
        HttpRequest {
            url: ACCU_WEATHER_SEARCH_URL.to_string(),
            query,
            headers: bearer_header(&self.api_key),
            expects: ResponseKind::AccuWeatherLocations,
        }
    }

    /// The request for the daily forecast at `location`.
    pub fn forecast_request(&self, location: &AccuWeatherLocation) -> (r: HttpRequest)
        ensures
            is_forecast_request(r, self.api_key@, location.key@),
    {
        let mut url = ACCU_WEATHER_FORECAST_URL.to_string();
        url.append(location.key.as_str());
        let mut query: Vec<(String, String)> = Vec::new();
        query.push(("metric".to_string(), "true".to_string()));
        assert(pairs_view(query@) =~= seq![("metric"@, "true"@)]);
        HttpRequest {
            url,
            query,
            headers: bearer_header(&self.api_key),
            expects: ResponseKind::AccuWeatherForecast,
        }
    }
}

/// The location that a search resolves to: the last one it found.
pub fn pick_location(mut locations: Vec<AccuWeatherLocation>) -> (r: Result<AccuWeatherLocation, WeatherError>)
    ensures
        locations@.len() == 0 ==> r == Err::<AccuWeatherLocation, WeatherError>(WeatherError::AddressNotFound),
        locations@.len() > 0 ==> r == Ok::<AccuWeatherLocation, WeatherError>(locations@.last()),
{
    match locations.pop() {
        Some(location) => Ok(location),
        None => Err(WeatherError::AddressNotFound),
    }
}

/// The report for the day `day_offset` days from today out of an AccuWeather forecast at
/// `location`.
pub fn accu_weather_report(location: &AccuWeatherLocation, days: &Vec<AccuWeatherDay>, day_offset: u32) -> (r: Result<WeatherReport, WeatherError>)
    ensures
        !all_dates_readable(days@) ==> (r matches Err(WeatherError::UpstreamSchemaError { message })
            && message@ == "AccuWeather forecast holds a malformed date"@),
        all_dates_readable(days@) && day_offset >= days@.len() ==> r == Err::<WeatherReport, WeatherError>(WeatherError::AddressNotFound),
        all_dates_readable(days@) && day_offset < days@.len() ==> (r matches Ok(report)
            && is_accu_weather_report(report, *location, days@[day_offset as int])),
{
    let mut i: usize = 0;
    while i < days.len()
        invariant
            i <= days@.len(),
            forall|j: int| 0 <= j < i ==> is_rfc3339(#[trigger] days@[j].date@),
        decreases days@.len() - i,
    {
        if rfc3339_date(days[i].date.as_str()).is_none() {
            return Err(WeatherError::UpstreamSchemaError {
                message: "AccuWeather forecast holds a malformed date".to_string(),
            });
        }
        i = i + 1;
    }
    if day_offset as usize >= days.len() {
        return Err(WeatherError::AddressNotFound);
    }
    let day = &days[day_offset as usize];
    let date = match rfc3339_date(day.date.as_str()) {
        Some(date) => date,
        None => {
            return Err(WeatherError::UpstreamSchemaError {
                message: "AccuWeather forecast holds a malformed date".to_string(),
            });
        },
    };
    let mut place = location.localized_name.clone();
    place.append(", ");
    place.append(location.country_name.as_str());
    let mut description = "Day: ".to_string();
    description.append(day.day_phrase.as_str());
    description.append(", Night: ");
    description.append(day.night_phrase.as_str());
    Ok(WeatherReport {
        provider: Provider::AccuWeather,
        date,
        location: place,
        description,
        max_temperature: day.maximum,
        min_temperature: day.minimum,
    })
}

} // verus!
