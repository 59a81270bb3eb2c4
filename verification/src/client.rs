//! Where requests go.

use vstd::prelude::*;

verus! {

/// The address of the forecast service.
pub const DEFAULT_FORECAST_ENDPOINT: &'static str = "https://api.open-meteo.com/v1/";

/// The address of the archive service.
pub const DEFAULT_ARCHIVE_ENDPOINT: &'static str = "https://archive-api.open-meteo.com/v1/";

/// The address of the geocoding service.
pub const DEFAULT_GEOCODING_ENDPOINT: &'static str = "https://geocoding-api.open-meteo.com/v1/search";

/// The address of the air-quality service.
pub const DEFAULT_AIR_QUALITY_ENDPOINT: &'static str =
    "https://air-quality-api.open-meteo.com/v1/air-quality";

/// The addresses of the services.
#[derive(Debug, Clone)]
pub struct Client {
    /// Forecast API URL
    pub forecast_endpoint: String,
    /// Archive API URL
    pub archive_endpoint: String,
    pub geocoding_endpoint: String,
    pub air_quality_endpoint: String,
}

impl Default for Client {
    /// The public services.
    fn default() -> (client: Client)
        ensures
            client.forecast_endpoint@ == DEFAULT_FORECAST_ENDPOINT@,
            client.archive_endpoint@ == DEFAULT_ARCHIVE_ENDPOINT@,
            client.geocoding_endpoint@ == DEFAULT_GEOCODING_ENDPOINT@,
            client.air_quality_endpoint@ == DEFAULT_AIR_QUALITY_ENDPOINT@,
    {
        Client {
            forecast_endpoint: String::from_str(DEFAULT_FORECAST_ENDPOINT),
            archive_endpoint: String::from_str(DEFAULT_ARCHIVE_ENDPOINT),
            geocoding_endpoint: String::from_str(DEFAULT_GEOCODING_ENDPOINT),
            air_quality_endpoint: String::from_str(DEFAULT_AIR_QUALITY_ENDPOINT),
        }
    }
}

impl Client {
    /// The public services.
    pub fn new() -> (client: Client)
        ensures
            client.forecast_endpoint@ == DEFAULT_FORECAST_ENDPOINT@,
            client.archive_endpoint@ == DEFAULT_ARCHIVE_ENDPOINT@,
            client.geocoding_endpoint@ == DEFAULT_GEOCODING_ENDPOINT@,
            client.air_quality_endpoint@ == DEFAULT_AIR_QUALITY_ENDPOINT@,
    {
        Client::default()
    }

    /// This client with another forecast service.
    pub fn with_forecast_endpoint(self, endpoint: String) -> (client: Client)
        ensures
            client.forecast_endpoint == endpoint,
            client.archive_endpoint == self.archive_endpoint,
            client.geocoding_endpoint == self.geocoding_endpoint,
            client.air_quality_endpoint == self.air_quality_endpoint,
    {
        let mut client = self;
        client.forecast_endpoint = endpoint;
        client
    }

    /// This client with another geocoding service. The name has a typing
    /// error: prefer `with_geocoding_endpoint`.
    pub fn with_geowoding_endpoint(self, endpoint: String) -> (client: Client)
        ensures
            client.forecast_endpoint == self.forecast_endpoint,
            client.archive_endpoint == self.archive_endpoint,
            client.geocoding_endpoint == endpoint,
            client.air_quality_endpoint == self.air_quality_endpoint,
    {
        self.with_geocoding_endpoint(endpoint)
    }

    /// This client with another geocoding service.
    pub fn with_geocoding_endpoint(self, endpoint: String) -> (client: Client)
        ensures
            client.forecast_endpoint == self.forecast_endpoint,
            client.archive_endpoint == self.archive_endpoint,
            client.geocoding_endpoint == endpoint,
            client.air_quality_endpoint == self.air_quality_endpoint,
    {
        let mut client = self;
        client.geocoding_endpoint = endpoint;
        client
    }

    /// The address of forecast requests: the forecast service and the word
    /// `forecast`.
    pub fn forecast_url(&self) -> (url: String)
        ensures
            url@ == self.forecast_endpoint@ + "forecast"@,
    {
        let mut url = self.forecast_endpoint.clone();
        url.append("forecast");
        url
    }

    /// The address of archive requests: the archive service and the word
    /// `archive`.
    pub fn archive_url(&self) -> (url: String)
        ensures
            url@ == self.archive_endpoint@ + "archive"@,
    {
        let mut url = self.archive_endpoint.clone();
        url.append("archive");
        url
    }
}

} // verus!
