//! The operations that the service offers, on plain values. Whoever exposes
//! them over a transport converts its messages to these values and back.

use crate::forecast::available_services::AvailableService;
use crate::forecast::calendar::{date_of_text, parse_date, CalendarDate};
use crate::address::{checked, Address};
use crate::forecast::forecast_services::ForecastIntegrationView;
use crate::location_search;
use crate::forecast::{
    concluded, invalid_date_error, make_invalid_date_error, prepared, Credentials,
    CredentialsView, Error, ErrorCode, ErrorView, Exchange, Location, LocationView, Preparation,
    PreparationView, Request, RequestView, WeatherForecast, WeatherForecastView,
    WeatherForecaster,
};
use vstd::prelude::*;

verus! {

/// How a call that failed is answered: the kind of failure, which the
/// transport turns into its own status for a client's or a server's fault, and
/// a message.
#[derive(Debug)]
pub struct Status {
    pub code: ErrorCode,
    pub message: String,
}

/// What a [`Status`] holds.
pub struct StatusView {
    pub code: ErrorCode,
    pub message: Seq<char>,
}

impl View for Status {
    type V = StatusView;

    open spec fn view(&self) -> StatusView {
        StatusView { code: self.code, message: self.message@ }
    }
}

/// What is to be done with a call for a forecast.
pub enum Started {
    /// Send the request, once, and hand what came of it to `forecaster`.
    Send { forecaster: WeatherForecaster, request: Request },
    /// Answer with this status. Nothing is sent.
    Fail(Status),
    /// The adapter wrote an address that is no URL. This is a defect of the
    /// program and no answer for the caller; the text is the address.
    Defect(String),
}

/// What a [`Started`] holds.
pub enum StartedView {
    Send { forecaster: ForecastIntegrationView, request: RequestView },
    Fail(StatusView),
    Defect(Seq<char>),
}

impl View for Started {
    type V = StartedView;

    open spec fn view(&self) -> StartedView {
        match self {
            Started::Send { forecaster, request } => StartedView::Send {
                forecaster: forecaster@,
                request: request@,
            },
            Started::Fail(status) => StartedView::Fail(status@),
            Started::Defect(url) => StartedView::Defect(url@),
        }
    }
}

/// What is said of a provider's name that the registry does not know.
pub open spec fn unknown_provider_message() -> Seq<char> {
    "Invalid weather provider passed."@
}

/// The status that answers a call which failed with `error`.
pub open spec fn status_for(error: ErrorView) -> StatusView {
    StatusView { code: error.code, message: error.text() }
}

/// What a call's result holds.
pub open spec fn answer_view(result: Result<WeatherForecast, Status>) -> Result<
    WeatherForecastView,
    StatusView,
> {
    match result {
        Ok(forecast) => Ok(forecast@),
        Err(status) => Err(status@),
    }
}

/// What is to be done with a call for the forecast of `provider` at `loc` on
/// the day that `date` names. The date is read first, then the provider's
/// name; a call that fails either way is answered at once as the caller's
/// fault. Every other call is prepared by the provider's forecaster.
pub open spec fn started(
    credentials: CredentialsView,
    provider: Seq<char>,
    loc: LocationView,
    date: Seq<char>,
) -> StartedView {
    if date_of_text(date) is None {
        StartedView::Fail(status_for(invalid_date_error()))
    } else {
        match AvailableService::named(provider) {
            None => StartedView::Fail(
                StatusView { code: ErrorCode::InvalidArgument, message: unknown_provider_message() },
            ),
            Some(service) => match prepared(credentials.integration(service), loc, date) {
                PreparationView::Send(request) => StartedView::Send {
                    forecaster: credentials.integration(service),
                    request,
                },
                PreparationView::Refuse(error) => StartedView::Fail(status_for(error)),
                PreparationView::Defect(text) => StartedView::Defect(text),
            },
        }
    }
}

/// What a forecaster's result means to the caller: a forecast as it is, a
/// failure as its status.
pub open spec fn answered(result: Result<WeatherForecastView, ErrorView>) -> Result<
    WeatherForecastView,
    StatusView,
> {
    match result {
        Ok(forecast) => Ok(forecast),
        Err(error) => Err(status_for(error)),
    }
}

/// A call whose date names no day is answered at once as the caller's fault,
/// whatever the provider's name, and nothing is sent for it.
pub proof fn lemma_unreadable_date_fails_the_call(
    credentials: CredentialsView,
    provider: Seq<char>,
    loc: LocationView,
    date: Seq<char>,
)
    requires
        date_of_text(date) is None,
    ensures
        started(credentials, provider, loc, date) == StartedView::Fail(
            status_for(invalid_date_error()),
        ),
        status_for(invalid_date_error()).code == ErrorCode::InvalidArgument,
{
}

/// A call for a provider that the registry does not know is answered at once
/// as the caller's fault, and nothing is sent for it.
pub proof fn lemma_unknown_provider_fails_the_call(
    credentials: CredentialsView,
    provider: Seq<char>,
    loc: LocationView,
    date: Seq<char>,
)
    requires
        date_of_text(date) is Some,
        AvailableService::named(provider) is None,
    ensures
        started(credentials, provider, loc, date) == StartedView::Fail(
            StatusView { code: ErrorCode::InvalidArgument, message: unknown_provider_message() },
        ),
{
}

/// A request is sent only for a provider that the registry knows and a date
/// that names a day. It goes to the address that this provider's adapter
/// writes for the place, with the service's key for this provider.
pub proof fn lemma_sent_call_is_the_callers(
    credentials: CredentialsView,
    provider: Seq<char>,
    loc: LocationView,
    date: Seq<char>,
    forecaster: ForecastIntegrationView,
    request: RequestView,
)
    requires
        started(credentials, provider, loc, date) == (StartedView::Send { forecaster, request }),
    ensures
        AvailableService::named(provider) == Some(forecaster.service),
        forecaster == credentials.integration(forecaster.service),
        request.url == forecaster.url_for(loc),
        date_of_text(date) == Some(request.date),
{
}

/// A failed call is answered with the kind of its failure.
pub proof fn lemma_status_keeps_the_kind(result: Result<WeatherForecastView, ErrorView>)
    requires
        result is Err,
    ensures
        answered(result) is Err,
        answered(result)->Err_0.code == result->Err_0.code,
        answered(result)->Err_0.message == result->Err_0.text(),
{
}

/// The service, with the keys of its accounts at the providers.
pub struct WeatherServiceImpl {
    pub credentials: Credentials,
}

impl View for WeatherServiceImpl {
    type V = CredentialsView;

    open spec fn view(&self) -> CredentialsView {
        self.credentials@
    }
}

impl WeatherServiceImpl {
    /// A service that asks the providers with `credentials`.
    pub fn new(credentials: Credentials) -> (service: WeatherServiceImpl)
        ensures
            service@ == credentials@,
    {
        WeatherServiceImpl { credentials }
    }

    /// The names of the providers that a forecast can be asked of, in the
    /// registry's order.
    pub fn get_weather_providers(&self) -> (providers: Vec<String>)
        ensures
            providers@.len() == AvailableService::all().len(),
            forall|i: int|
                0 <= i < providers@.len() ==> (#[trigger] providers@[i])@
                    == AvailableService::all()[i].name(),
    {
        let services = AvailableService::iter();
        let mut providers: Vec<String> = Vec::new();
        let mut i: usize = 0;
        while i < services.len()
            invariant
                services@ == AvailableService::all(),
                i <= services@.len(),
                providers@.len() == i,
                forall|j: int|
                    0 <= j < i ==> (#[trigger] providers@[j])@ == AvailableService::all()[j].name(),
            decreases services@.len() - i,
        {
            providers.push(services[i].to_string());
            i += 1;
        }
        providers
    }

    /// Takes up a call for the places named `query`: the address to send a GET
    /// to, or the text that should have been one.
    pub fn get_locations(&self, query: &str) -> (address: Address)
        ensures
            address@ == checked(location_search::url_text(query@, self@.openweathermap)),
    {
        location_search::perform(query, self.credentials.openweathermap.as_str())
    }

    /// The status that answers a search for places which the transport could
    /// not complete, or whose answer could not be read: the failure is of kind
    /// `Internal`, and the message is the account of it as it stands.
    pub fn locations_failure(reason: String) -> (status: Status)
        ensures
            status@ == (StatusView { code: ErrorCode::Internal, message: reason@ }),
    {
        Status { code: ErrorCode::Internal, message: reason }
    }

    /// The status that answers a call which failed with `error`.
    pub fn status_of(error: &Error) -> (status: Status)
        ensures
            status@ == status_for(error@),
    {
        Status { code: error.code, message: error.to_string() }
    }

    /// Takes up a call for the forecast of `provider` at `location` on the day
    /// that `date` names, written as `mm.dd.yyyy`.
    pub fn get_weather(&self, provider: &str, location: Location, date: &str) -> (outcome: Started)
        ensures
            outcome@ == started(self@, provider@, location@, date@),
    {
        let day = match parse_date(date) {
            Some(day) => day,
            None => {
                let error = make_invalid_date_error();
                return Started::Fail(Self::status_of(&error));
            },
        };
        match AvailableService::from_str(provider) {
            Err(_) => Started::Fail(
                Status {
                    code: ErrorCode::InvalidArgument,
                    message: String::from_str("Invalid weather provider passed."),
                },
            ),
            Ok(service) => {
                let forecaster = WeatherForecaster::new(service, &self.credentials);
                match forecaster.request(location, day) {
                    Preparation::Send(request) => Started::Send { forecaster, request },
                    Preparation::Refuse(error) => Started::Fail(Self::status_of(&error)),
                    Preparation::Defect(url) => Started::Defect(url),
                }
            },
        }
    }

    /// Finishes a call that `get_weather` took up: turns the outcome of sending
    /// the request into the call's answer.
    pub fn answer(
        forecaster: &WeatherForecaster,
        date: CalendarDate,
        exchange: Exchange,
    ) -> (result: Result<WeatherForecast, Status>)
        ensures
            answer_view(result) == answered(concluded(forecaster@, date, exchange@)),
    {
        match forecaster.conclude(date, exchange) {
            Ok(forecast) => Ok(forecast),
            Err(error) => Err(Self::status_of(&error)),
        }
    }
}

} // verus!
