//! The adapter for OpenWeatherMap's One Call API.

use crate::forecast::{
    days_result_view, decoded_view, Celsius, Error, ErrorCode, ErrorView, Location,
    WeatherForecast, WeatherForecastView,
};
use vstd::prelude::*;

verus! {

/// A weather condition as OpenWeatherMap words it, in two parts.
#[derive(Debug, Clone)]
pub struct Condition {
    pub main: String,
    pub description: String,
}

/// Temperatures of one day.
#[derive(Debug, Clone, Copy)]
pub struct Temp {
    pub min: Celsius,
    pub max: Celsius,
    pub day: Celsius,
}

/// One entry of the reply's `daily` sequence.
#[derive(Debug, Clone)]
pub struct Forecast {
    pub dt: i64,
    pub temp: Temp,
    pub weather: Vec<Condition>,
}

/// A decoded reply: its `daily` sequence.
#[derive(Debug, Clone)]
pub struct JSONReply {
    pub daily: Vec<Forecast>,
}

/// What a [`Condition`] holds.
pub struct ConditionView {
    pub main: Seq<char>,
    pub description: Seq<char>,
}

/// What a [`Forecast`] holds.
pub struct ForecastView {
    pub dt: i64,
    pub temp: Temp,
    pub weather: Seq<ConditionView>,
}

/// What a [`JSONReply`] holds.
pub struct JSONReplyView {
    pub daily: Seq<ForecastView>,
}

impl View for Condition {
    type V = ConditionView;

    open spec fn view(&self) -> ConditionView {
        ConditionView { main: self.main@, description: self.description@ }
    }
}

impl View for Forecast {
    type V = ForecastView;

    open spec fn view(&self) -> ForecastView {
        ForecastView {
            dt: self.dt,
            temp: self.temp,
            weather: self.weather@.map_values(|c: Condition| c@),
        }
    }
}

impl View for JSONReply {
    type V = JSONReplyView;

    open spec fn view(&self) -> JSONReplyView {
        JSONReplyView { daily: self.daily@.map_values(|d: Forecast| d@) }
    }
}

/// The address of the One Call API for a place, with the account's key.
pub open spec fn url_text(lat: Seq<char>, lon: Seq<char>, key: Seq<char>) -> Seq<char> {
    "https://api.openweathermap.org/data/2.5/onecall?lat="@ + lat + "&lon="@ + lon
        + "&units=metric&exclude=current,minutely,hourly&appid="@ + key
}

/// The words that open the message of every failure to read a reply.
pub open spec fn unreadable_prefix() -> Seq<char> {
    "Unable to process the response from OpenWeatherMap. "@
}

/// What is said of a day that comes without a weather condition.
pub open spec fn no_condition_reason() -> Seq<char> {
    "A day of the forecast has no weather condition."@
}

/// The condition of a day as one text: the two parts of its first condition,
/// with a comma and a space between them.
pub open spec fn condition_text(first: ConditionView) -> Seq<char> {
    first.main + ", "@ + first.description
}

/// The day in the common shape. It takes the first of the day's conditions, so
/// the day must have one.
pub open spec fn normalized(day: ForecastView) -> WeatherForecastView {
    WeatherForecastView {
        dt: day.dt,
        min_t: day.temp.min,
        max_t: day.temp.max,
        avg_t: day.temp.day,
        condition: condition_text(day.weather[0]),
    }
}

/// Whether every day of the reply has a weather condition.
pub open spec fn is_complete(reply: JSONReplyView) -> bool {
    forall|i: int| 0 <= i < reply.daily.len() ==> (#[trigger] reply.daily[i]).weather.len() > 0
}

/// What the adapter makes of a decoder's result: the days of a complete reply
/// in the common shape and in the reply's order; a failure of kind `Internal`
/// for a reply with a day that has no condition, and for a body that the
/// decoder could not read, with the decoder's reason in the message.
pub open spec fn handled(response: Result<JSONReplyView, Seq<char>>) -> Result<
    Seq<WeatherForecastView>,
    ErrorView,
> {
    match response {
        Err(reason) => Err(
            ErrorView { code: ErrorCode::Internal, description: unreadable_prefix() + reason },
        ),
        Ok(reply) => if is_complete(reply) {
            Ok(reply.daily.map_values(|day: ForecastView| normalized(day)))
        } else {
            Err(
                ErrorView {
                    code: ErrorCode::Internal,
                    description: unreadable_prefix() + no_condition_reason(),
                },
            )
        },
    }
}

/// The adapter, with the key of the account that it asks on behalf of.
pub struct Integration {
    pub authorization: String,
}

impl View for Integration {
    type V = Seq<char>;

    /// The key.
    open spec fn view(&self) -> Seq<char> {
        self.authorization@
    }
}

impl Integration {
    /// An adapter that signs its requests with `authorization`.
    pub fn new(authorization: String) -> (integration: Integration)
        ensures
            integration@ == authorization@,
    {
        Integration { authorization }
    }

    /// The address to ask for the forecast at `loc`: daily values only, in
    /// metric units.
    pub fn get_url(&self, loc: Location) -> (url: String)
        ensures
            url@ == url_text(loc@.lat, loc@.lon, self@),
    {
        let mut url = String::from_str("https://api.openweathermap.org/data/2.5/onecall?lat=");
        url.append(loc.lat.as_str());
        url.append("&lon=");
        url.append(loc.lon.as_str());
        url.append("&units=metric&exclude=current,minutely,hourly&appid=");
        url.append(self.authorization.as_str());
        url
    }

    /// Brings one day of the reply to the common shape.
    fn normalize(day: &Forecast) -> (forecast: WeatherForecast)
        requires
            day@.weather.len() > 0,
        ensures
            forecast@ == normalized(day@),
    {
        let first = &day.weather[0];
        let mut condition = first.main.clone();
        condition.append(", ");
        condition.append(first.description.as_str());
        WeatherForecast {
            dt: day.dt,
            min_t: day.temp.min,
            max_t: day.temp.max,
            avg_t: day.temp.day,
            condition,
        }
    }

    /// Turns what the decoder made of a reply's body into the days of the
    /// forecast.
    ///
    /// `response` is the decoded reply, or the decoder's account of why the body
    /// is no such reply. That account, and a day without a weather condition, are
    /// failures of kind `Internal`: a malformed reply is never the caller's fault.
    pub fn handle_response(
        &self,
        response: Result<JSONReply, String>,
    ) -> (result: Result<Vec<WeatherForecast>, Error>)
        ensures
            days_result_view(result) == handled(decoded_view(response)),
    {
        match response {
            Err(reason) => {
                let mut description = String::from_str(
                    "Unable to process the response from OpenWeatherMap. ",
                );
                description.append(reason.as_str());
                Err(Error { code: ErrorCode::Internal, description })
            },
            Ok(reply) => {
                let mut forecasts: Vec<WeatherForecast> = Vec::new();
                let mut i: usize = 0;
                while i < reply.daily.len()
                    invariant
                        response == Ok::<JSONReply, String>(reply),
                        i <= reply.daily@.len(),
                        forecasts@.len() == i,
                        forall|j: int| 0 <= j < i ==> (#[trigger] reply@.daily[j]).weather.len() > 0,
                        forall|j: int|
                            0 <= j < i ==> (#[trigger] forecasts@[j])@ == normalized(reply@.daily[j]),
                    decreases reply.daily@.len() - i,
                {
                    let day = &reply.daily[i];
                    if day.weather.len() == 0 {
                        let mut description = String::from_str(
                            "Unable to process the response from OpenWeatherMap. ",
                        );
                        description.append("A day of the forecast has no weather condition.");
                        assert(reply@.daily[i as int].weather.len() == 0);
                        return Err(Error { code: ErrorCode::Internal, description });
                    }
                    forecasts.push(Self::normalize(day));
                    i += 1;
                }
                assert(forecasts@.map_values(|f: WeatherForecast| f@) =~= reply@.daily.map_values(
                    |day: ForecastView| normalized(day),
                ));
                Ok(forecasts)
            },
        }
    }
}

} // verus!
