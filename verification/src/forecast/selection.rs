//! Picking the forecast for one day out of the days that a provider returned.

use crate::forecast::calendar::{date_of_timestamp, utc_date, CalendarDate};
use crate::forecast::{
    day_result_view, forecasts_view, invalid_date_error, make_invalid_date_error, Error,
    ErrorCode, ErrorView, WeatherForecast, WeatherForecastView,
};
use vstd::prelude::*;

verus! {

/// The UTC calendar day of each forecast, in order; `None` for a timestamp
/// that falls on no day.
pub open spec fn dates_of(forecasts: Seq<WeatherForecastView>) -> Seq<Option<CalendarDate>> {
    forecasts.map_values(|f: WeatherForecastView| utc_date(f.dt))
}

/// Whether one of `dates` is `date`.
pub open spec fn has_day(dates: Seq<Option<CalendarDate>>, date: CalendarDate) -> bool {
    exists|i: int| 0 <= i < dates.len() && dates[i] == Some(date)
}

/// Whether `i` is the first place in `dates` that holds `date`.
pub open spec fn is_first_on(dates: Seq<Option<CalendarDate>>, date: CalendarDate, i: int) -> bool {
    &&& 0 <= i < dates.len()
    &&& dates[i] == Some(date)
    &&& forall|j: int| 0 <= j < i ==> dates[j] != Some(date)
}

/// The first place in `dates` that holds `date`, where there is one.
pub open spec fn first_on(dates: Seq<Option<CalendarDate>>, date: CalendarDate) -> int {
    choose|i: int| is_first_on(dates, date, i)
}

/// The forecast for `date` among `forecasts`: the first whose timestamp falls
/// on that day. Where there is none, the failure is of kind `InvalidArgument`.
pub open spec fn selected(forecasts: Seq<WeatherForecastView>, date: CalendarDate) -> Result<
    WeatherForecastView,
    ErrorView,
> {
    if has_day(dates_of(forecasts), date) {
        Ok(forecasts[first_on(dates_of(forecasts), date)])
    } else {
        Err(invalid_date_error())
    }
}

/// At most one place is the first that holds `date`.
pub proof fn lemma_first_on_is_unique(dates: Seq<Option<CalendarDate>>, date: CalendarDate, i: int)
    requires
        is_first_on(dates, date, i),
    ensures
        has_day(dates, date),
        first_on(dates, date) == i,
{
}

/// Where one of `dates` is `date`, one of them is the first.
pub proof fn lemma_some_day_is_first(dates: Seq<Option<CalendarDate>>, date: CalendarDate, k: int)
    requires
        0 <= k < dates.len(),
        dates[k] == Some(date),
    ensures
        is_first_on(dates, date, first_on(dates, date)),
        first_on(dates, date) <= k,
    decreases k,
{
    if exists|j: int| 0 <= j < k && dates[j] == Some(date) {
        let j: int = choose|j: int| 0 <= j < k && dates[j] == Some(date);
        lemma_some_day_is_first(dates, date, j);
    } else {
        lemma_first_on_is_unique(dates, date, k);
    }
}

/// A forecast that is selected is one of those returned, it falls on the date
/// asked for, and none before it does.
pub proof fn lemma_selected_day_falls_on_date(
    forecasts: Seq<WeatherForecastView>,
    date: CalendarDate,
)
    requires
        selected(forecasts, date) is Ok,
    ensures
        is_first_on(dates_of(forecasts), date, first_on(dates_of(forecasts), date)),
        selected(forecasts, date)->Ok_0 == forecasts[first_on(dates_of(forecasts), date)],
        utc_date(selected(forecasts, date)->Ok_0.dt) == Some(date),
{
    let dates = dates_of(forecasts);
    let k: int = choose|k: int| 0 <= k < dates.len() && dates[k] == Some(date);
    lemma_some_day_is_first(dates, date, k);
}

/// Where a returned day falls on the date asked for, the first such day is the
/// forecast that is selected.
pub proof fn lemma_first_day_on_date_is_selected(
    forecasts: Seq<WeatherForecastView>,
    date: CalendarDate,
    i: int,
)
    requires
        is_first_on(dates_of(forecasts), date, i),
    ensures
        selected(forecasts, date) == Ok::<WeatherForecastView, ErrorView>(forecasts[i]),
        utc_date(forecasts[i].dt) == Some(date),
{
    lemma_first_on_is_unique(dates_of(forecasts), date, i);
}

/// Where no returned day falls on the date asked for, the selection fails, and
/// the failure is the caller's: it is of kind `InvalidArgument`.
pub proof fn lemma_no_day_on_date_is_invalid_argument(
    forecasts: Seq<WeatherForecastView>,
    date: CalendarDate,
)
    requires
        forall|i: int|
            0 <= i < forecasts.len() ==> utc_date(#[trigger] forecasts[i].dt) != Some(date),
    ensures
        selected(forecasts, date) == Err::<WeatherForecastView, ErrorView>(invalid_date_error()),
        invalid_date_error().code == ErrorCode::InvalidArgument,
{
}

/// Finds the first place in `dates` that holds `date`.
pub fn position_of_date(
    dates: &Vec<Option<CalendarDate>>,
    date: CalendarDate,
) -> (position: Option<usize>)
    ensures
        match position {
            Some(i) => is_first_on(dates@, date, i as int),
            None => !has_day(dates@, date),
        },
{
    let mut i: usize = 0;
    while i < dates.len()
        invariant
            i <= dates@.len(),
            forall|j: int| 0 <= j < i ==> dates@[j] != Some(date),
        decreases dates@.len() - i,
    {
        match dates[i] {
            Some(day) => {
                if day == date {
                    return Some(i);
                }
            },
            None => {},
        }
        i += 1;
    }
    None
}

/// The UTC calendar day of each forecast, in order.
fn forecast_dates(forecasts: &Vec<WeatherForecast>) -> (dates: Vec<Option<CalendarDate>>)
    ensures
        dates@ == dates_of(forecasts_view(forecasts@)),
{
    let mut dates: Vec<Option<CalendarDate>> = Vec::new();
    let mut i: usize = 0;
    while i < forecasts.len()
        invariant
            i <= forecasts@.len(),
            dates@.len() == i,
            forall|j: int| 0 <= j < i ==> dates@[j] == utc_date(#[trigger] forecasts@[j].dt),
        decreases forecasts@.len() - i,
    {
        dates.push(date_of_timestamp(forecasts[i].dt));
        i += 1;
    }
    dates
}

/// Takes the forecast for `date` out of `forecasts`: the first whose timestamp
/// falls on that day in UTC.
pub fn select_day(
    forecasts: Vec<WeatherForecast>,
    date: CalendarDate,
) -> (result: Result<WeatherForecast, Error>)
    ensures
        day_result_view(result) == selected(forecasts_view(forecasts@), date),
{
    let mut forecasts = forecasts;
    let dates = forecast_dates(&forecasts);
    match position_of_date(&dates, date) {
        Some(found) => {
            proof {
                lemma_first_on_is_unique(dates@, date, found as int);
            }
            Ok(forecasts.remove(found))
        },
        None => Err(make_invalid_date_error()),
    }
}

} // verus!
