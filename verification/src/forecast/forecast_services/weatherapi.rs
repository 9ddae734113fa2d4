//! The adapter for WeatherAPI's forecast endpoint.

use crate::forecast::{
    days_result_view, decoded_view, Celsius, Error, ErrorCode, ErrorView, Location,
    WeatherForecast, WeatherForecastView,
};
use vstd::prelude::*;

verus! {

/// A weather condition as WeatherAPI words it.
#[derive(Debug, Clone)]
pub struct Condition {
    pub text: String,
}

/// The values of one day.
#[derive(Debug, Clone)]
pub struct WeatherData {
    pub maxtemp_c: Celsius,
    pub mintemp_c: Celsius,
    pub avgtemp_c: Celsius,
    pub condition: Condition,
}

/// One entry of the reply's `forecastday` sequence.
#[derive(Debug, Clone)]
pub struct DailyForecast {
    pub date_epoch: i64,
    pub day: WeatherData,
}

/// The reply's `forecast` member.
#[derive(Debug, Clone)]
pub struct ForecastDay {
    pub forecastday: Vec<DailyForecast>,
}

/// A decoded reply.
#[derive(Debug, Clone)]
pub struct JSONReply {
    pub forecast: ForecastDay,
}

/// What a [`DailyForecast`] holds.
pub struct DailyForecastView {
    pub date_epoch: i64,
    pub maxtemp_c: Celsius,
    pub mintemp_c: Celsius,
    pub avgtemp_c: Celsius,
    pub condition: Seq<char>,
}

/// What a [`JSONReply`] holds: its days, in order.
pub struct JSONReplyView {
    pub forecastday: Seq<DailyForecastView>,
}

impl View for DailyForecast {
    type V = DailyForecastView;

    open spec fn view(&self) -> DailyForecastView {
        DailyForecastView {
            date_epoch: self.date_epoch,
            maxtemp_c: self.day.maxtemp_c,
            mintemp_c: self.day.mintemp_c,
            avgtemp_c: self.day.avgtemp_c,
            condition: self.day.condition.text@,
        }
    }
}

impl View for JSONReply {
    type V = JSONReplyView;

    open spec fn view(&self) -> JSONReplyView {
        JSONReplyView { forecastday: self.forecast.forecastday@.map_values(|d: DailyForecast| d@) }
    }
}

/// The address of the forecast endpoint for a place, with the account's key:
/// ten days, without air quality and alerts.
pub open spec fn url_text(lat: Seq<char>, lon: Seq<char>, key: Seq<char>) -> Seq<char> {
    "http://api.weatherapi.com/v1/forecast.json?key="@ + key + "&q="@ + lat + ","@ + lon
        + "&days=10&aqi=no&alerts=no"@
}

/// The words that open the message of every failure to read a reply.
pub open spec fn unreadable_prefix() -> Seq<char> {
    "Unable to process the response from WeatherApi. "@
}

/// The day in the common shape. The condition's text is taken as it stands.
pub open spec fn normalized(day: DailyForecastView) -> WeatherForecastView {
    WeatherForecastView {
        dt: day.date_epoch,
        min_t: day.mintemp_c,
        max_t: day.maxtemp_c,
        avg_t: day.avgtemp_c,
        condition: day.condition,
    }
}

/// What the adapter makes of a decoder's result: the days of the reply in the
/// common shape and in the reply's order; a failure of kind `Internal` for a
/// body that the decoder could not read, with the decoder's reason in the
/// message.
pub open spec fn handled(response: Result<JSONReplyView, Seq<char>>) -> Result<
    Seq<WeatherForecastView>,
    ErrorView,
> {
    match response {
        Err(reason) => Err(
            ErrorView { code: ErrorCode::Internal, description: unreadable_prefix() + reason },
        ),
        Ok(reply) => Ok(reply.forecastday.map_values(|day: DailyForecastView| normalized(day))),
    }
}

/// The adapter, with the key of the account that it asks on behalf of.
pub struct Integration {
    pub authorization: String,
}

impl View for Integration {
    type V = Seq<char>;

    /// The key.
    open spec fn view(&self) -> Seq<char> {
        self.authorization@
    }
}

impl Integration {
    /// An adapter that signs its requests with `authorization`.
    pub fn new(authorization: String) -> (integration: Integration)
        ensures
            integration@ == authorization@,
    {
        Integration { authorization }
    }

    /// The address to ask for the forecast at `loc`.
    pub fn get_url(&self, loc: Location) -> (url: String)
        ensures
            url@ == url_text(loc@.lat, loc@.lon, self@),
    {
        let mut url = String::from_str("http://api.weatherapi.com/v1/forecast.json?key=");
        url.append(self.authorization.as_str());
        url.append("&q=");
        url.append(loc.lat.as_str());
        url.append(",");
        url.append(loc.lon.as_str());
        url.append("&days=10&aqi=no&alerts=no");
        url
    }

    /// Turns what the decoder made of a reply's body into the days of the
    /// forecast.
    ///
    /// `response` is the decoded reply, or the decoder's account of why the body
    /// is no such reply, which becomes a failure of kind `Internal`.
    pub fn handle_response(
        &self,
        response: Result<JSONReply, String>,
    ) -> (result: Result<Vec<WeatherForecast>, Error>)
        ensures
            days_result_view(result) == handled(decoded_view(response)),
    {
        match response {
            Err(reason) => {
                let mut description = String::from_str(
                    "Unable to process the response from WeatherApi. ",
                );
                description.append(reason.as_str());
                Err(Error { code: ErrorCode::Internal, description })
            },
            Ok(reply) => {
                let days = &reply.forecast.forecastday;
                let mut forecasts: Vec<WeatherForecast> = Vec::new();
                let mut i: usize = 0;
                while i < days.len()
                    invariant
                        days == &reply.forecast.forecastday,
                        i <= days@.len(),
                        forecasts@.len() == i,
                        forall|j: int|
                            0 <= j < i ==> (#[trigger] forecasts@[j])@ == normalized(
                                reply@.forecastday[j],
                            ),
                    decreases days@.len() - i,
                {
                    let item = &days[i];
                    forecasts.push(
                        WeatherForecast {
                            dt: item.date_epoch,
                            min_t: item.day.mintemp_c,
                            max_t: item.day.maxtemp_c,
                            avg_t: item.day.avgtemp_c,
                            condition: item.day.condition.text.clone(),
                        },
                    );
                    i += 1;
                }
                assert(forecasts@.map_values(|f: WeatherForecast| f@)
                    =~= reply@.forecastday.map_values(|day: DailyForecastView| normalized(day)));
                Ok(forecasts)
            },
        }
    }
}

} // verus!
