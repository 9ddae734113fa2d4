//! One adapter per forecast provider, and the two of them as one type.

pub mod openweathermap;
pub mod weatherapi;

use crate::forecast::available_services::AvailableService;
use crate::forecast::{
    days_result_view, decoded_view, Error, ErrorCode, ErrorView, Location, LocationView,
    WeatherForecast, WeatherForecastView,
};
use vstd::prelude::*;

verus! {

/// The adapter of one provider.
pub enum ForecastIntegration {
    OpenWeatherMap(openweathermap::Integration),
    WeatherApi(weatherapi::Integration),
}

/// What a [`ForecastIntegration`] holds: the provider that it speaks to and
/// the key that it signs its requests with.
pub struct ForecastIntegrationView {
    pub service: AvailableService,
    pub key: Seq<char>,
}

impl View for ForecastIntegration {
    type V = ForecastIntegrationView;

    open spec fn view(&self) -> ForecastIntegrationView {
        match self {
            ForecastIntegration::OpenWeatherMap(integration) => ForecastIntegrationView {
                service: AvailableService::OpenWeatherMap,
                key: integration@,
            },
            ForecastIntegration::WeatherApi(integration) => ForecastIntegrationView {
                service: AvailableService::WeatherApi,
                key: integration@,
            },
        }
    }
}

/// A reply as its provider's decoder hands it over.
#[derive(Debug, Clone)]
pub enum Reply {
    OpenWeatherMap(openweathermap::JSONReply),
    WeatherApi(weatherapi::JSONReply),
}

/// What a [`Reply`] holds.
pub enum ReplyView {
    OpenWeatherMap(openweathermap::JSONReplyView),
    WeatherApi(weatherapi::JSONReplyView),
}

impl View for Reply {
    type V = ReplyView;

    open spec fn view(&self) -> ReplyView {
        match self {
            Reply::OpenWeatherMap(reply) => ReplyView::OpenWeatherMap(reply@),
            Reply::WeatherApi(reply) => ReplyView::WeatherApi(reply@),
        }
    }
}

/// What is said of a reply that was decoded for another provider.
pub open spec fn foreign_reply_reason() -> Seq<char> {
    "The reply has the shape of another provider."@
}

impl ForecastIntegrationView {
    /// The address that the adapter asks for the forecast at a place.
    pub open spec fn url_for(self, loc: LocationView) -> Seq<char> {
        match self.service {
            AvailableService::OpenWeatherMap => openweathermap::url_text(loc.lat, loc.lon, self.key),
            AvailableService::WeatherApi => weatherapi::url_text(loc.lat, loc.lon, self.key),
        }
    }

    /// What the adapter makes of a decoder's result. A reply in the shape of
    /// another provider is a malformed reply.
    pub open spec fn handled(self, response: Result<ReplyView, Seq<char>>) -> Result<
        Seq<WeatherForecastView>,
        ErrorView,
    > {
        match self.service {
            AvailableService::OpenWeatherMap => match response {
                Ok(ReplyView::OpenWeatherMap(reply)) => openweathermap::handled(Ok(reply)),
                Ok(ReplyView::WeatherApi(_)) => openweathermap::handled(Err(foreign_reply_reason())),
                Err(reason) => openweathermap::handled(Err(reason)),
            },
            AvailableService::WeatherApi => match response {
                Ok(ReplyView::WeatherApi(reply)) => weatherapi::handled(Ok(reply)),
                Ok(ReplyView::OpenWeatherMap(_)) => weatherapi::handled(Err(foreign_reply_reason())),
                Err(reason) => weatherapi::handled(Err(reason)),
            },
        }
    }
}

impl ForecastIntegration {
    /// The address to ask for the forecast at `loc`.
    pub fn get_url(&self, loc: Location) -> (url: String)
        ensures
            url@ == self@.url_for(loc@),
    {
        match self {
            ForecastIntegration::OpenWeatherMap(integration) => integration.get_url(loc),
            ForecastIntegration::WeatherApi(integration) => integration.get_url(loc),
        }
    }

    /// Turns what the provider's decoder made of a reply's body into the days
    /// of the forecast.
    pub fn handle_response(
        &self,
        response: Result<Reply, String>,
    ) -> (result: Result<Vec<WeatherForecast>, Error>)
        ensures
            days_result_view(result) == self@.handled(decoded_view(response)),
    {
        match self {
            ForecastIntegration::OpenWeatherMap(integration) => match response {
                Ok(Reply::OpenWeatherMap(reply)) => integration.handle_response(Ok(reply)),
                Ok(Reply::WeatherApi(_)) => integration.handle_response(
                    Err(String::from_str("The reply has the shape of another provider.")),
                ),
                Err(reason) => integration.handle_response(Err(reason)),
            },
            ForecastIntegration::WeatherApi(integration) => match response {
                Ok(Reply::WeatherApi(reply)) => integration.handle_response(Ok(reply)),
                Ok(Reply::OpenWeatherMap(_)) => integration.handle_response(
                    Err(String::from_str("The reply has the shape of another provider.")),
                ),
                Err(reason) => integration.handle_response(Err(reason)),
            },
        }
    }
}

/// The address is a function of the provider, the coordinates and the key:
/// two places with the same coordinates are asked for at the same address,
/// whatever their names.
pub proof fn lemma_url_depends_on_coordinates_and_key(
    adapter: ForecastIntegrationView,
    here: LocationView,
    there: LocationView,
)
    requires
        here.lat == there.lat,
        here.lon == there.lon,
    ensures
        adapter.url_for(here) == adapter.url_for(there),
{
}

/// Whatever an adapter cannot use fails with kind `Internal`.
pub proof fn lemma_adapter_failures_are_internal(
    adapter: ForecastIntegrationView,
    response: Result<ReplyView, Seq<char>>,
)
    requires
        adapter.handled(response) is Err,
    ensures
        adapter.handled(response)->Err_0.code == ErrorCode::Internal,
{
}

} // verus!
