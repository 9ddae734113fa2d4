use weather_forecast::forecast::forecast_services::openweathermap::{
    Condition, Forecast, Integration, JSONReply, Temp,
};
use weather_forecast::forecast::{Celsius, ErrorCode, Location};

fn celsius(degrees: f32) -> Celsius {
    Celsius { bits: degrees.to_bits() }
}

fn degrees(temperature: Celsius) -> f32 {
    f32::from_bits(temperature.bits)
}

fn text(value: &serde_json::Value) -> String {
    value.as_str().unwrap().to_string()
}

fn number(value: &serde_json::Value) -> Celsius {
    celsius(value.as_f64().unwrap() as f32)
}

/// Reads a body as a decoder for this provider's replies would.
fn decode(body: &str) -> Result<JSONReply, String> {
    let value: serde_json::Value = serde_json::from_str(body).map_err(|e| e.to_string())?;
    let daily = value["daily"]
        .as_array()
        .unwrap()
        .iter()
        .map(|day| Forecast {
            dt: day["dt"].as_i64().unwrap(),
            temp: Temp {
                min: number(&day["temp"]["min"]),
                max: number(&day["temp"]["max"]),
                day: number(&day["temp"]["day"]),
            },
            weather: day["weather"]
                .as_array()
                .unwrap()
                .iter()
                .map(|c| Condition { main: text(&c["main"]), description: text(&c["description"]) })
                .collect(),
        })
        .collect();
    Ok(JSONReply { daily })
}

fn one_day(dt: i64, weather: Vec<Condition>) -> Forecast {
    Forecast { dt, temp: Temp { min: celsius(1.0), max: celsius(3.0), day: celsius(2.0) }, weather }
}

fn condition(main: &str, description: &str) -> Condition {
    Condition { main: main.to_string(), description: description.to_string() }
}

#[test]
fn openweathermap_test_url_is_valid() {
    let loc = Location {
        name: "Name".to_string(),
        state: "State".to_string(),
        country: "Country".to_string(),
        lon: 1.1f32.to_string(),
        lat: 2.2f32.to_string(),
    };
    let authorization = "key-of-the-account";

    let url = Integration::new(authorization.to_string()).get_url(loc);

    assert_eq!(
        url,
        format!(
            "https://api.openweathermap.org/data/2.5/onecall?lat=2.2&lon=1.1&units=metric&exclude=current,minutely,hourly&appid={}",
            authorization
        )
    );
}

#[test]
fn openweathermap_url_is_the_same_for_the_same_place_and_key() {
    let loc = Location {
        name: "Greenwich".to_string(),
        state: "England".to_string(),
        country: "GB".to_string(),
        lat: "51.4779".to_string(),
        lon: "-0.0015".to_string(),
    };
    let adapter = Integration::new("key".to_string());

    let first = adapter.get_url(loc.clone());
    let second = adapter.get_url(loc);

    assert_eq!(first, second);
    assert_eq!(
        first,
        "https://api.openweathermap.org/data/2.5/onecall?lat=51.4779&lon=-0.0015&units=metric&exclude=current,minutely,hourly&appid=key"
    );
}

#[test]
fn openweathermap_url_takes_nothing_from_the_names() {
    let here = Location {
        name: "A".to_string(),
        state: "B".to_string(),
        country: "C".to_string(),
        lat: "10".to_string(),
        lon: "20".to_string(),
    };
    let there = Location {
        name: "X".to_string(),
        state: "Y".to_string(),
        country: "Z".to_string(),
        lat: "10".to_string(),
        lon: "20".to_string(),
    };
    let adapter = Integration::new("k".to_string());

    assert_eq!(adapter.get_url(here), adapter.get_url(there));
}

#[test]
fn openweathermap_url_with_an_empty_key_and_place() {
    let loc = Location {
        name: String::new(),
        state: String::new(),
        country: String::new(),
        lat: String::new(),
        lon: String::new(),
    };

    assert_eq!(
        Integration::new(String::new()).get_url(loc),
        "https://api.openweathermap.org/data/2.5/onecall?lat=&lon=&units=metric&exclude=current,minutely,hourly&appid="
    );
}

#[test]
fn openweathermap_parse_response_test() {
    let data = r#"
    {
        "daily": [
            {
                "dt": 946684800,
                "temp": {
                    "day": 20.0,
                    "min": 19.5,
                    "max": 20.5
                },
                "weather": [
                    {
                        "main": "Sky is clear",
                        "description": "warm and good"
                    }
                ]
            },
            {
                "dt": 946771200,
                "temp": {
                    "day": 23.0,
                    "min": 22.5,
                    "max": 23.5
                },
                "weather": [
                    {
                        "main": "Sky is clear",
                        "description": "warm and good too"
                    }
                ]
            }
        ]
    }"#;

    let forecasts = Integration::new("key".to_string()).handle_response(decode(data)).unwrap();

    assert_eq!(forecasts.len(), 2);

    assert_eq!(forecasts[0].dt, 946684800);
    assert_eq!(degrees(forecasts[0].max_t), 20.5);
    assert_eq!(degrees(forecasts[0].min_t), 19.5);
    assert_eq!(degrees(forecasts[0].avg_t), 20.0);
    assert_eq!(forecasts[0].condition, "Sky is clear, warm and good");

    assert_eq!(forecasts[1].dt, 946771200);
    assert_eq!(degrees(forecasts[1].max_t), 23.5);
    assert_eq!(degrees(forecasts[1].min_t), 22.5);
    assert_eq!(degrees(forecasts[1].avg_t), 23.0);
    assert_eq!(forecasts[1].condition, "Sky is clear, warm and good too");
}

#[test]
fn openweathermap_days_keep_their_order() {
    let reply = JSONReply {
        daily: vec![
            one_day(30, vec![condition("c", "third")]),
            one_day(10, vec![condition("a", "first")]),
            one_day(20, vec![condition("b", "second")]),
        ],
    };

    let forecasts = Integration::new(String::new()).handle_response(Ok(reply)).unwrap();

    let order: Vec<i64> = forecasts.iter().map(|f| f.dt).collect();
    assert_eq!(order, vec![30, 10, 20]);
    assert_eq!(forecasts[0].condition, "c, third");
    assert_eq!(forecasts[1].condition, "a, first");
    assert_eq!(forecasts[2].condition, "b, second");
}

#[test]
fn openweathermap_takes_the_first_condition_of_a_day() {
    let reply = JSONReply {
        daily: vec![one_day(1, vec![condition("Rain", "light rain"), condition("Mist", "mist")])],
    };

    let forecasts = Integration::new(String::new()).handle_response(Ok(reply)).unwrap();

    assert_eq!(forecasts.len(), 1);
    assert_eq!(forecasts[0].condition, "Rain, light rain");
}

#[test]
fn openweathermap_joins_empty_parts_too() {
    let reply = JSONReply { daily: vec![one_day(1, vec![condition("", "")])] };

    let forecasts = Integration::new(String::new()).handle_response(Ok(reply)).unwrap();

    assert_eq!(forecasts[0].condition, ", ");
}

#[test]
fn openweathermap_temperatures_are_handed_on_bit_for_bit() {
    let reply = JSONReply {
        daily: vec![Forecast {
            dt: -5,
            temp: Temp {
                min: Celsius { bits: 0xffc0_0001 },
                max: Celsius { bits: 0x8000_0000 },
                day: Celsius { bits: u32::MAX },
            },
            weather: vec![condition("a", "b")],
        }],
    };

    let forecasts = Integration::new(String::new()).handle_response(Ok(reply)).unwrap();

    assert_eq!(forecasts[0].dt, -5);
    assert_eq!(forecasts[0].min_t, Celsius { bits: 0xffc0_0001 });
    assert_eq!(forecasts[0].max_t, Celsius { bits: 0x8000_0000 });
    assert_eq!(forecasts[0].avg_t, Celsius { bits: u32::MAX });
}

#[test]
fn openweathermap_reply_without_days_gives_no_forecasts() {
    let forecasts =
        Integration::new(String::new()).handle_response(Ok(JSONReply { daily: vec![] })).unwrap();

    assert!(forecasts.is_empty());
}

#[test]
fn openweathermap_day_without_a_condition_is_an_internal_failure() {
    let reply = JSONReply {
        daily: vec![one_day(1, vec![condition("a", "b")]), one_day(2, vec![])],
    };

    let error = Integration::new(String::new()).handle_response(Ok(reply)).unwrap_err();

    assert_eq!(error.code, ErrorCode::Internal);
    assert_eq!(
        error.description,
        "Unable to process the response from OpenWeatherMap. A day of the forecast has no weather condition."
    );
}

#[test]
fn openweathermap_body_that_is_no_reply_is_an_internal_failure() {
    let error = Integration::new(String::new())
        .handle_response(Err("missing field `daily` at line 1 column 2".to_string()))
        .unwrap_err();

    assert_eq!(error.code, ErrorCode::Internal);
    assert_eq!(
        error.description,
        "Unable to process the response from OpenWeatherMap. missing field `daily` at line 1 column 2"
    );
}

#[test]
fn openweathermap_body_that_is_no_json_is_an_internal_failure() {
    let error = Integration::new(String::new()).handle_response(decode("<html>")).unwrap_err();

    assert_eq!(error.code, ErrorCode::Internal);
    assert!(error.description.starts_with("Unable to process the response from OpenWeatherMap. "));
    assert!(error.description.len() > "Unable to process the response from OpenWeatherMap. ".len());
}
