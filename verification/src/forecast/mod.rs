//! The forecast orchestrator and the values it works on.
//!
//! A request for a forecast runs through a few steps, and every way through
//! them ends the request: the date is read, the provider's adapter writes the
//! address, a single GET is sent, and its outcome is turned into the answer.
//! Sending is left to the program around the library. [`WeatherForecaster::get_weather`]
//! covers the steps before it and [`WeatherForecaster::conclude`] those after it.

pub mod available_services;
pub mod calendar;
pub mod forecast_services;
pub mod selection;

use crate::address::{checked, is_url, Address, AddressView};
use crate::forecast::available_services::AvailableService;
use crate::forecast::calendar::{date_of_text, parse_date, CalendarDate};
use crate::forecast::forecast_services::{
    ForecastIntegration, ForecastIntegrationView, Reply, ReplyView,
};
use crate::forecast::selection::{dates_of, has_day, is_first_on, select_day, selected};
use vstd::prelude::*;

verus! {

/// The two kinds of failure.
#[derive(Debug, Clone, Copy, PartialEq, Eq, Structural)]
pub enum ErrorCode {
    /// The request could not be completed for a reason outside the caller's
    /// control: the network, a malformed reply, an unexpected status.
    Internal,
    /// The caller's input made the request unsatisfiable.
    InvalidArgument,
}

/// A failed forecast request: its kind and a message for the caller.
#[derive(Debug)]
pub struct Error {
    pub code: ErrorCode,
    pub description: String,
}

/// What an [`Error`] holds.
pub struct ErrorView {
    pub code: ErrorCode,
    pub description: Seq<char>,
}

impl View for Error {
    type V = ErrorView;

    open spec fn view(&self) -> ErrorView {
        ErrorView { code: self.code, description: self.description@ }
    }
}

impl ErrorView {
    /// The text shown for an error: the message between fixed words.
    pub open spec fn text(self) -> Seq<char> {
        "An error occured when performing forecast request: "@ + self.description + "."@
    }
}

impl Error {
    /// Writes the error out for a reader.
    pub fn to_string(&self) -> (text: String)
        ensures
            text@ == self@.text(),
    {
        let mut text = String::from_str("An error occured when performing forecast request: ");
        text.append(self.description.as_str());
        text.append(".");
        text
    }
}

/// A temperature in degrees Celsius, kept as the bit pattern of an IEEE 754
/// single-precision number. The library hands temperatures on and never
/// computes with them.
#[derive(Debug, Clone, Copy, PartialEq, Eq, Structural)]
pub struct Celsius {
    pub bits: u32,
}

/// Where a forecast is asked for. Nothing here is validated: a provider that
/// cannot place the coordinates says so in its answer.
///
/// The library writes the coordinates into addresses and does nothing else
/// with them, so it holds them as the decimal numbers are written.
#[derive(Debug, Clone)]
pub struct Location {
    pub name: String,
    pub state: String,
    pub country: String,
    /// Latitude in degrees, as a decimal number is written.
    pub lat: String,
    /// Longitude in degrees, as a decimal number is written.
    pub lon: String,
}

/// What a [`Location`] holds.
pub struct LocationView {
    pub name: Seq<char>,
    pub state: Seq<char>,
    pub country: Seq<char>,
    pub lat: Seq<char>,
    pub lon: Seq<char>,
}

impl View for Location {
    type V = LocationView;

    open spec fn view(&self) -> LocationView {
        LocationView {
            name: self.name@,
            state: self.state@,
            country: self.country@,
            lat: self.lat@,
            lon: self.lon@,
        }
    }
}

/// One calendar day of forecast, in the shape that every provider's reply is
/// brought to.
#[derive(Debug, Clone)]
pub struct WeatherForecast {
    /// Seconds since 1970-01-01T00:00:00Z of an instant on that day.
    pub dt: i64,
    pub min_t: Celsius,
    pub max_t: Celsius,
    pub avg_t: Celsius,
    pub condition: String,
}

/// What a [`WeatherForecast`] holds.
pub struct WeatherForecastView {
    pub dt: i64,
    pub min_t: Celsius,
    pub max_t: Celsius,
    pub avg_t: Celsius,
    pub condition: Seq<char>,
}

impl View for WeatherForecast {
    type V = WeatherForecastView;

    open spec fn view(&self) -> WeatherForecastView {
        WeatherForecastView {
            dt: self.dt,
            min_t: self.min_t,
            max_t: self.max_t,
            avg_t: self.avg_t,
            condition: self.condition@,
        }
    }
}

/// What a sequence of forecasts holds.
pub open spec fn forecasts_view(forecasts: Seq<WeatherForecast>) -> Seq<WeatherForecastView> {
    forecasts.map_values(|f: WeatherForecast| f@)
}

/// What an adapter's result holds.
pub open spec fn days_result_view(result: Result<Vec<WeatherForecast>, Error>) -> Result<
    Seq<WeatherForecastView>,
    ErrorView,
> {
    match result {
        Ok(forecasts) => Ok(forecasts_view(forecasts@)),
        Err(error) => Err(error@),
    }
}

/// What the orchestrator's result holds.
pub open spec fn day_result_view(result: Result<WeatherForecast, Error>) -> Result<
    WeatherForecastView,
    ErrorView,
> {
    match result {
        Ok(forecast) => Ok(forecast@),
        Err(error) => Err(error@),
    }
}

/// What a decoder's result holds: the reply, or the reason why there is none.
pub open spec fn decoded_view<T: View>(response: Result<T, String>) -> Result<T::V, Seq<char>> {
    match response {
        Ok(reply) => Ok(reply@),
        Err(reason) => Err(reason@),
    }
}

/// The keys of the accounts at the providers, one for each.
#[derive(Clone)]
pub struct Credentials {
    pub openweathermap: String,
    pub weather_api: String,
}

/// What [`Credentials`] hold.
pub struct CredentialsView {
    pub openweathermap: Seq<char>,
    pub weather_api: Seq<char>,
}

impl View for Credentials {
    type V = CredentialsView;

    open spec fn view(&self) -> CredentialsView {
        CredentialsView { openweathermap: self.openweathermap@, weather_api: self.weather_api@ }
    }
}

impl CredentialsView {
    /// The key of the account at `service`.
    pub open spec fn key_for(self, service: AvailableService) -> Seq<char> {
        match service {
            AvailableService::OpenWeatherMap => self.openweathermap,
            AvailableService::WeatherApi => self.weather_api,
        }
    }

    /// The adapter of `service` with its key out of these.
    pub open spec fn integration(self, service: AvailableService) -> ForecastIntegrationView {
        ForecastIntegrationView { service, key: self.key_for(service) }
    }
}

/// The adapter of `forecast_type`, with that provider's key out of
/// `credentials`.
pub fn get_forecast_integration(
    forecast_type: AvailableService,
    credentials: &Credentials,
) -> (integration: ForecastIntegration)
    ensures
        integration@ == credentials@.integration(forecast_type),
{
    match forecast_type {
        AvailableService::OpenWeatherMap => ForecastIntegration::OpenWeatherMap(
            forecast_services::openweathermap::Integration::new(credentials.openweathermap.clone()),
        ),
        AvailableService::WeatherApi => ForecastIntegration::WeatherApi(
            forecast_services::weatherapi::Integration::new(credentials.weather_api.clone()),
        ),
    }
}

/// What is said where no forecast can be given for the date asked for.
pub open spec fn invalid_date_message() -> Seq<char> {
    "Can't find forecast for specified data.Make sure that you use the format mm.dd.yyyy and do not specify a past date."@
}

/// The failure for a date that cannot be read or that no returned day falls on.
pub open spec fn invalid_date_error() -> ErrorView {
    ErrorView { code: ErrorCode::InvalidArgument, description: invalid_date_message() }
}

/// The words before the transport's own account of a failed exchange.
pub open spec fn transport_failure_prefix() -> Seq<char> {
    "Unable to make request. "@
}

/// Makes the failure for a date that cannot be read or that no returned day
/// falls on.
pub fn make_invalid_date_error() -> (error: Error)
    ensures
        error@ == invalid_date_error(),
{
    Error {
        code: ErrorCode::InvalidArgument,
        description: String::from_str(
            "Can't find forecast for specified data.Make sure that you use the format mm.dd.yyyy and do not specify a past date.",
        ),
    }
}

/// A request that is ready to be sent, and the day that the answer will be
/// searched for.
#[derive(Debug, Clone)]
pub struct Request {
    /// Where to send a GET.
    pub url: String,
    /// The day that the caller asked for.
    pub date: CalendarDate,
}

/// What a [`Request`] holds.
pub struct RequestView {
    pub url: Seq<char>,
    pub date: CalendarDate,
}

impl View for Request {
    type V = RequestView;

    open spec fn view(&self) -> RequestView {
        RequestView { url: self.url@, date: self.date }
    }
}

/// What is to be done with a caller's request.
#[derive(Debug)]
pub enum Preparation {
    /// Send it, once, and hand what came of it to `conclude`.
    Send(Request),
    /// Answer with this failure. Nothing is sent.
    Refuse(Error),
    /// The adapter wrote an address that is no URL. This is a defect of the
    /// program and no answer for the caller; the text is the address.
    Defect(String),
}

/// What a [`Preparation`] holds.
pub enum PreparationView {
    Send(RequestView),
    Refuse(ErrorView),
    Defect(Seq<char>),
}

impl View for Preparation {
    type V = PreparationView;

    open spec fn view(&self) -> PreparationView {
        match self {
            Preparation::Send(request) => PreparationView::Send(request@),
            Preparation::Refuse(error) => PreparationView::Refuse(error@),
            Preparation::Defect(url) => PreparationView::Defect(url@),
        }
    }
}

/// What came of sending a request.
#[derive(Debug)]
pub enum Exchange {
    /// No response came. The text is the transport's own account of why.
    Failed(String),
    /// A response came with a status that asks for no reply to be read.
    Refused {
        /// The HTTP status.
        status: u16,
        /// The body as text.
        body: String,
    },
    /// A response came with status 200. Its body was given to the provider's
    /// decoder: this is the reply, or the decoder's account of why the body is
    /// none.
    Replied(Result<Reply, String>),
}

/// What an [`Exchange`] holds.
pub enum ExchangeView {
    Failed(Seq<char>),
    Refused { status: u16, body: Seq<char> },
    Replied(Result<ReplyView, Seq<char>>),
}

impl View for Exchange {
    type V = ExchangeView;

    open spec fn view(&self) -> ExchangeView {
        match self {
            Exchange::Failed(reason) => ExchangeView::Failed(reason@),
            Exchange::Refused { status, body } => ExchangeView::Refused {
                status: *status,
                body: body@,
            },
            Exchange::Replied(decoded) => ExchangeView::Replied(decoded_view(*decoded)),
        }
    }
}

/// Whether the body of a response with `status` is to be read as a reply. The
/// body under every other status is to be read as text.
pub open spec fn is_reply_status(status: u16) -> bool {
    status == 200
}

/// The kind of failure that a status without a reply stands for: status 400
/// says that the provider found fault with the request, and so with the
/// caller's input; every other status is none of the caller's doing.
pub open spec fn refusal_code(status: u16) -> ErrorCode {
    if status == 400 {
        ErrorCode::InvalidArgument
    } else {
        ErrorCode::Internal
    }
}

/// What is to be done with a request for `date` whose address was looked at.
pub open spec fn request_to(address: AddressView, date: CalendarDate) -> PreparationView {
    match address {
        AddressView::Url(url) => PreparationView::Send(RequestView { url, date }),
        AddressView::Malformed(text) => PreparationView::Defect(text),
    }
}

/// What is to be done with a request for the forecast at `loc` on the day that
/// `date_text` names: a text that names no day is refused, and for every other
/// the adapter's address is looked at.
pub open spec fn prepared(
    forecaster: ForecastIntegrationView,
    loc: LocationView,
    date_text: Seq<char>,
) -> PreparationView {
    match date_of_text(date_text) {
        None => PreparationView::Refuse(invalid_date_error()),
        Some(date) => request_to(checked(forecaster.url_for(loc)), date),
    }
}

/// What the outcome of sending a request means for the caller who asked for
/// `date`: a failure whose message ends with the transport's account where no
/// response came; a failure with the body as its message where the status asks
/// for no reply; and where a reply was decoded, the first of its days that
/// falls on `date`.
pub open spec fn concluded(
    forecaster: ForecastIntegrationView,
    date: CalendarDate,
    exchange: ExchangeView,
) -> Result<WeatherForecastView, ErrorView> {
    match exchange {
        ExchangeView::Failed(reason) => Err(
            ErrorView {
                code: ErrorCode::Internal,
                description: transport_failure_prefix() + reason,
            },
        ),
        ExchangeView::Refused { status, body } => Err(
            ErrorView { code: refusal_code(status), description: body },
        ),
        ExchangeView::Replied(decoded) => match forecaster.handled(decoded) {
            Ok(forecasts) => selected(forecasts, date),
            Err(error) => Err(error),
        },
    }
}

/// Makes the request for `date` to an address that is a URL, and reports a
/// defect for one that is none.
pub fn make_request(address: Address, date: CalendarDate) -> (preparation: Preparation)
    ensures
        preparation@ == request_to(address@, date),
{
    match address {
        Address::Url(url) => Preparation::Send(Request { url, date }),
        Address::Malformed(text) => Preparation::Defect(text),
    }
}

/// Asks one provider for forecasts and picks the day that the caller wants.
///
/// The forecaster sends nothing itself. `get_weather` says what to send, and
/// `conclude` says what the outcome of sending it means.
pub struct WeatherForecaster {
    pub provider: ForecastIntegration,
}

impl View for WeatherForecaster {
    type V = ForecastIntegrationView;

    open spec fn view(&self) -> ForecastIntegrationView {
        self.provider@
    }
}

impl WeatherForecaster {
    /// A forecaster that asks `forecast_service`, with that provider's key
    /// out of `credentials`.
    pub fn new(
        forecast_service: AvailableService,
        credentials: &Credentials,
    ) -> (forecaster: WeatherForecaster)
        ensures
            forecaster@ == credentials@.integration(forecast_service),
    {
        WeatherForecaster { provider: get_forecast_integration(forecast_service, credentials) }
    }

    /// Writes the request for the forecast at `loc` on `date`: the adapter's
    /// address for the place, where it is a URL.
    pub fn request(&self, loc: Location, date: CalendarDate) -> (preparation: Preparation)
        ensures
            preparation@ == request_to(checked(self@.url_for(loc@)), date),
    {
        make_request(Address::check(self.provider.get_url(loc)), date)
    }

    /// Takes up a request for the forecast at `loc`: reads the date, which must
    /// be written as `mm.dd.yyyy`, and writes the request to send.
    pub fn get_weather(&self, loc: Location, date_string: &str) -> (preparation: Preparation)
        ensures
            preparation@ == prepared(self@, loc@, date_string@),
    {
        match parse_date(date_string) {
            None => Preparation::Refuse(make_invalid_date_error()),
            Some(date) => self.request(loc, date),
        }
    }

    /// Tells whether the body of a response with `status` is to be read as a
    /// reply, by the provider's decoder, or as text.
    pub fn expects_reply(status: u16) -> (reply: bool)
        ensures
            reply == is_reply_status(status),
    {
        status == 200
    }

    /// Turns the outcome of sending a request into the answer for the caller
    /// who asked for `date`.
    ///
    /// A reply is searched for the first day that falls on `date`. Without a
    /// reply, the body is the message of a failure: of kind `InvalidArgument`
    /// under status 400, of kind `Internal` under any other. An exchange that
    /// the transport could not complete is a failure of kind `Internal`.
    pub fn conclude(
        &self,
        date: CalendarDate,
        exchange: Exchange,
    ) -> (result: Result<WeatherForecast, Error>)
        ensures
            day_result_view(result) == concluded(self@, date, exchange@),
    {
        match exchange {
            Exchange::Failed(reason) => {
                let mut description = String::from_str("Unable to make request. ");
                description.append(reason.as_str());
                Err(Error { code: ErrorCode::Internal, description })
            },
            Exchange::Refused { status, body } => {
                let code = if status == 400 {
                    ErrorCode::InvalidArgument
                } else {
                    ErrorCode::Internal
                };
                Err(Error { code, description: body })
            },
            Exchange::Replied(decoded) => match self.provider.handle_response(decoded) {
                Ok(forecasts) => select_day(forecasts, date),
                Err(error) => Err(error),
            },
        }
    }
}

/// A request whose date names no day is refused as the caller's fault, and
/// nothing is sent for it.
pub proof fn lemma_unreadable_date_is_refused(
    forecaster: ForecastIntegrationView,
    loc: LocationView,
    date_text: Seq<char>,
)
    requires
        date_of_text(date_text) is None,
    ensures
        prepared(forecaster, loc, date_text) == PreparationView::Refuse(invalid_date_error()),
        invalid_date_error().code == ErrorCode::InvalidArgument,
{
}

/// A request is sent only to the address that the adapter writes for the
/// place, and only for a date that names a day.
pub proof fn lemma_sent_request_is_the_adapters(
    forecaster: ForecastIntegrationView,
    loc: LocationView,
    date_text: Seq<char>,
    request: RequestView,
)
    requires
        prepared(forecaster, loc, date_text) == PreparationView::Send(request),
    ensures
        request.url == forecaster.url_for(loc),
        is_url(request.url),
        date_of_text(date_text) == Some(request.date),
{
}

/// The first day of a reply that falls on the date asked for is the answer.
pub proof fn lemma_day_on_date_is_answer(
    forecaster: ForecastIntegrationView,
    date: CalendarDate,
    decoded: Result<ReplyView, Seq<char>>,
    forecasts: Seq<WeatherForecastView>,
    i: int,
)
    requires
        forecaster.handled(decoded) == Ok::<Seq<WeatherForecastView>, ErrorView>(forecasts),
        is_first_on(dates_of(forecasts), date, i),
    ensures
        concluded(forecaster, date, ExchangeView::Replied(decoded))
            == Ok::<WeatherForecastView, ErrorView>(forecasts[i]),
{
    selection::lemma_first_day_on_date_is_selected(forecasts, date, i);
}

/// A reply without a day on the date asked for is answered with a failure of
/// kind `InvalidArgument`.
pub proof fn lemma_no_day_on_date_is_refused(
    forecaster: ForecastIntegrationView,
    date: CalendarDate,
    decoded: Result<ReplyView, Seq<char>>,
    forecasts: Seq<WeatherForecastView>,
)
    requires
        forecaster.handled(decoded) == Ok::<Seq<WeatherForecastView>, ErrorView>(forecasts),
        !has_day(dates_of(forecasts), date),
    ensures
        concluded(forecaster, date, ExchangeView::Replied(decoded))
            == Err::<WeatherForecastView, ErrorView>(invalid_date_error()),
        invalid_date_error().code == ErrorCode::InvalidArgument,
{
}

/// A reply that the adapter cannot use is answered with the adapter's failure,
/// which is of kind `Internal`: a malformed reply is never the caller's fault.
pub proof fn lemma_malformed_reply_is_internal(
    forecaster: ForecastIntegrationView,
    date: CalendarDate,
    decoded: Result<ReplyView, Seq<char>>,
)
    requires
        forecaster.handled(decoded) is Err,
    ensures
        concluded(forecaster, date, ExchangeView::Replied(decoded))
            == Err::<WeatherForecastView, ErrorView>(forecaster.handled(decoded)->Err_0),
        forecaster.handled(decoded)->Err_0.code == ErrorCode::Internal,
{
}

/// Status 400 is answered with a failure of kind `InvalidArgument` whose
/// message is the body.
pub proof fn lemma_bad_request_is_invalid_argument(
    forecaster: ForecastIntegrationView,
    date: CalendarDate,
    body: Seq<char>,
)
    ensures
        concluded(forecaster, date, ExchangeView::Refused { status: 400, body })
            == Err::<WeatherForecastView, ErrorView>(
            ErrorView { code: ErrorCode::InvalidArgument, description: body },
        ),
{
}

/// Every status but 200 and 400 is answered with a failure of kind `Internal`
/// whose message is the body.
pub proof fn lemma_other_status_is_internal(
    forecaster: ForecastIntegrationView,
    date: CalendarDate,
    status: u16,
    body: Seq<char>,
)
    requires
        status != 200,
        status != 400,
    ensures
        !is_reply_status(status),
        concluded(forecaster, date, ExchangeView::Refused { status, body })
            == Err::<WeatherForecastView, ErrorView>(
            ErrorView { code: ErrorCode::Internal, description: body },
        ),
{
}

/// An exchange that the transport could not complete is answered with a
/// failure of kind `Internal`, never `InvalidArgument`, and the transport's
/// account ends the message.
pub proof fn lemma_failed_exchange_is_internal(
    forecaster: ForecastIntegrationView,
    date: CalendarDate,
    reason: Seq<char>,
)
    ensures
        concluded(forecaster, date, ExchangeView::Failed(reason))
            == Err::<WeatherForecastView, ErrorView>(
            ErrorView {
                code: ErrorCode::Internal,
                description: transport_failure_prefix() + reason,
            },
        ),
{
}

} // verus!
