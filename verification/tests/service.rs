use weather_forecast::forecast::available_services::AvailableService;
use weather_forecast::forecast::calendar::CalendarDate;
use weather_forecast::forecast::forecast_services::{
    openweathermap, weatherapi, ForecastIntegration, Reply,
};
use weather_forecast::forecast::{
    Celsius, Credentials, Error, ErrorCode, Exchange, Location, WeatherForecaster,
};
use weather_forecast::weather_service_impl::{Started, WeatherServiceImpl};

const INVALID_DATE_STATUS: &str = "An error occured when performing forecast request: Can't find forecast for specified data.Make sure that you use the format mm.dd.yyyy and do not specify a past date..";

fn service() -> WeatherServiceImpl {
    WeatherServiceImpl::new(Credentials {
        openweathermap: "owm-key".to_string(),
        weather_api: "wa-key".to_string(),
    })
}

fn location(lat: f32, lon: f32) -> Location {
    Location {
        name: "Name".to_string(),
        state: "State".to_string(),
        country: "Country".to_string(),
        lon: lon.to_string(),
        lat: lat.to_string(),
    }
}

/// Reads a response as a program around the library does: the status decides
/// whether the decoder's result or the text is handed on.
fn respond(status: u16, body: &str, decoded: Result<Reply, String>) -> Exchange {
    if WeatherForecaster::expects_reply(status) {
        Exchange::Replied(decoded)
    } else {
        Exchange::Refused { status, body: body.to_string() }
    }
}

fn one_day_reply(date_epoch: i64) -> Reply {
    Reply::WeatherApi(weatherapi::JSONReply {
        forecast: weatherapi::ForecastDay {
            forecastday: vec![weatherapi::DailyForecast {
                date_epoch,
                day: weatherapi::WeatherData {
                    maxtemp_c: Celsius { bits: 20.5f32.to_bits() },
                    mintemp_c: Celsius { bits: 19.5f32.to_bits() },
                    avgtemp_c: Celsius { bits: 20.0f32.to_bits() },
                    condition: weatherapi::Condition { text: "Sunny".to_string() },
                },
            }],
        },
    })
}

/// A reply of OpenWeatherMap with the days from noon to noon, as the provider
/// sends them.
fn openweathermap_reply(noons: &[i64]) -> Reply {
    Reply::OpenWeatherMap(openweathermap::JSONReply {
        daily: noons
            .iter()
            .map(|dt| openweathermap::Forecast {
                dt: *dt,
                temp: openweathermap::Temp {
                    min: Celsius { bits: 7.5f32.to_bits() },
                    max: Celsius { bits: 12.5f32.to_bits() },
                    day: Celsius { bits: 11.0f32.to_bits() },
                },
                weather: vec![openweathermap::Condition {
                    main: "Clouds".to_string(),
                    description: "overcast clouds".to_string(),
                }],
            })
            .collect(),
    })
}

#[test]
fn test_get_weather_ok() {
    let london = location(51.5073219, -0.1276474);

    let started = service().get_weather(&AvailableService::OpenWeatherMap.to_string(), london, "10.28.2026");

    let (forecaster, request) = match started {
        Started::Send { forecaster, request } => (forecaster, request),
        Started::Fail(_) | Started::Defect(_) => panic!("the request was not sent"),
    };
    let weather_reply = WeatherServiceImpl::answer(
        &forecaster,
        request.date,
        respond(200, "", Ok(openweathermap_reply(&[1793188800, 1793275200]))),
    );

    assert!(weather_reply.is_ok());
    assert_eq!(weather_reply.unwrap().dt, 1793188800);
}

#[test]
fn test_get_weather_wrong_date_format() {
    // Day first: there is no 28th month.
    let started = service().get_weather("OpenWeatherMap", location(51.5, -0.12), "28.10.2026");

    match started {
        Started::Fail(status) => {
            assert_eq!(status.code, ErrorCode::InvalidArgument);
            assert_eq!(status.message, INVALID_DATE_STATUS);
        }
        Started::Send { .. } | Started::Defect(_) => panic!("the call was not answered at once"),
    }
}

#[test]
fn test_get_weather_wrong_location() {
    let started = service().get_weather("OpenWeatherMap", location(240.0, 240.0), "10.28.2026");

    let (forecaster, request) = match started {
        Started::Send { forecaster, request } => (forecaster, request),
        Started::Fail(_) | Started::Defect(_) => panic!("the request was not sent"),
    };
    assert_eq!(
        request.url,
        "https://api.openweathermap.org/data/2.5/onecall?lat=240&lon=240&units=metric&exclude=current,minutely,hourly&appid=owm-key"
    );

    // The provider refuses such coordinates with status 400.
    let weather_reply = WeatherServiceImpl::answer(
        &forecaster,
        request.date,
        respond(
            400,
            "{\"cod\":\"400\",\"message\":\"wrong latitude\"}",
            Err("missing field `daily` at line 1 column 41".to_string()),
        ),
    );

    assert!(weather_reply.is_err());
    let status = weather_reply.err().unwrap();
    assert_eq!(status.code, ErrorCode::InvalidArgument);
    assert_eq!(
        status.message,
        "An error occured when performing forecast request: {\"cod\":\"400\",\"message\":\"wrong latitude\"}."
    );
}

#[test]
fn a_call_with_a_known_provider_and_a_date_is_sent() {
    let started = service().get_weather("WeatherApi", location(2.2, 1.1), "01.01.2000");

    match started {
        Started::Send { forecaster, request } => {
            assert!(matches!(forecaster.provider, ForecastIntegration::WeatherApi(_)));
            assert_eq!(
                request.url,
                "http://api.weatherapi.com/v1/forecast.json?key=wa-key&q=2.2,1.1&days=10&aqi=no&alerts=no"
            );
            assert_eq!(request.date, CalendarDate { year: 2000, month: 1, day: 1 });
        }
        Started::Fail(_) | Started::Defect(_) => panic!("the request was not sent"),
    }
}

#[test]
fn an_unknown_provider_is_the_callers_fault() {
    for name in ["", "weatherapi", "OpenWeatherMap ", "Yr"] {
        match service().get_weather(name, location(2.2, 1.1), "01.01.2000") {
            Started::Fail(status) => {
                assert_eq!(status.code, ErrorCode::InvalidArgument);
                assert_eq!(status.message, "Invalid weather provider passed.");
            }
            Started::Send { .. } | Started::Defect(_) => panic!("{:?} passed for a provider", name),
        }
    }
}

#[test]
fn the_date_is_read_before_the_providers_name() {
    match service().get_weather("Yr", location(2.2, 1.1), "2000.01.01") {
        Started::Fail(status) => {
            assert_eq!(status.code, ErrorCode::InvalidArgument);
            assert_eq!(status.message, INVALID_DATE_STATUS);
        }
        Started::Send { .. } | Started::Defect(_) => panic!("the call was not answered at once"),
    }
}

#[test]
fn a_forecast_is_answered_as_it_is() {
    let forecaster = WeatherForecaster::new(
        AvailableService::WeatherApi,
        &Credentials { openweathermap: String::new(), weather_api: String::new() },
    );

    let answer = WeatherServiceImpl::answer(
        &forecaster,
        CalendarDate { year: 2000, month: 1, day: 1 },
        respond(200, "", Ok(one_day_reply(946684800))),
    );

    let forecast = answer.unwrap();
    assert_eq!(forecast.dt, 946684800);
    assert_eq!(f32::from_bits(forecast.min_t.bits), 19.5);
    assert_eq!(f32::from_bits(forecast.max_t.bits), 20.5);
    assert_eq!(f32::from_bits(forecast.avg_t.bits), 20.0);
    assert_eq!(forecast.condition, "Sunny");
}

#[test]
fn a_failure_keeps_its_kind_in_the_status() {
    let forecaster = WeatherForecaster::new(
        AvailableService::WeatherApi,
        &Credentials { openweathermap: String::new(), weather_api: String::new() },
    );
    let date = CalendarDate { year: 2000, month: 1, day: 1 };

    let unreachable = WeatherServiceImpl::answer(&forecaster, date, Exchange::Failed("timed out".to_string()));
    let status = unreachable.err().unwrap();
    assert_eq!(status.code, ErrorCode::Internal);
    assert_eq!(
        status.message,
        "An error occured when performing forecast request: Unable to make request. timed out."
    );

    let no_such_day = WeatherServiceImpl::answer(
        &forecaster,
        date,
        respond(200, "", Ok(one_day_reply(0))),
    );
    let status = no_such_day.err().unwrap();
    assert_eq!(status.code, ErrorCode::InvalidArgument);
    assert_eq!(status.message, INVALID_DATE_STATUS);

    let server_error = WeatherServiceImpl::answer(
        &forecaster,
        date,
        respond(500, "down", Err("x".to_string())),
    );
    let status = server_error.err().unwrap();
    assert_eq!(status.code, ErrorCode::Internal);
    assert_eq!(status.message, "An error occured when performing forecast request: down.");
}

#[test]
fn the_status_of_an_error_is_its_kind_and_its_text() {
    let error = Error { code: ErrorCode::Internal, description: "An error in stub".to_string() };
    let status = WeatherServiceImpl::status_of(&error);
    assert_eq!(status.code, ErrorCode::Internal);
    assert_eq!(status.message, "An error occured when performing forecast request: An error in stub.");

    let error = Error { code: ErrorCode::InvalidArgument, description: "no".to_string() };
    let status = WeatherServiceImpl::status_of(&error);
    assert_eq!(status.code, ErrorCode::InvalidArgument);
    assert_eq!(status.message, "An error occured when performing forecast request: no.");
}
