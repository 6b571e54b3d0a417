use weather_report::report::{category_line, escape_query, geocoding_url, render_report, synopsis_line, weather_url, ReportView};
use weather_report::synopsis::Synopsis;
use weather_report::weather::WeatherSynopsis;

fn synopsis(s: Synopsis, d: &str) -> WeatherSynopsis {
    WeatherSynopsis { synopsis: s, description: d.to_string() }
}

#[test]
fn full_report_lines() {
    let view = ReportView {
        city: "Paris".to_string(),
        synopses: vec![synopsis(Synopsis::Rain, "light rain"), synopsis(Synopsis::Clouds, "broken clouds")],
        forecast_time: "01/02/24 09:30".to_string(),
        temperature: "12".to_string(),
        feels_like: "-1".to_string(),
    };
    assert_eq!(
        render_report(&view),
        vec![
            "Weather for Paris".to_string(),
            "Forecast date: 01/02/24 09:30".to_string(),
            "Rain: light rain ☔️".to_string(),
            "Current temp: 12°C".to_string(),
            "Feels like: -1°C".to_string(),
        ]
    );
}

#[test]
fn report_without_category() {
    let view = ReportView {
        city: "Oslo".to_string(),
        synopses: vec![],
        forecast_time: "31/12/23 23:59".to_string(),
        temperature: "0".to_string(),
        feels_like: "-5".to_string(),
    };
    assert_eq!(
        render_report(&view),
        vec![
            "Weather for Oslo".to_string(),
            "Forecast date: 31/12/23 23:59".to_string(),
            "Current temp: 0°C".to_string(),
            "Feels like: -5°C".to_string(),
        ]
    );
}

#[test]
fn category_lines() {
    assert_eq!(synopsis_line(&synopsis(Synopsis::Other, "")), "Other:  ❓");
    assert_eq!(category_line(&vec![]), None);
    assert_eq!(
        category_line(&vec![synopsis(Synopsis::Clear, "clear sky")]),
        Some("Clear: clear sky ☀️".to_string())
    );
}

#[test]
fn geocoding_address() {
    assert_eq!(
        geocoding_url("London", "KEY"),
        "https://api.openweathermap.org/geo/1.0/direct?q=London&limit=1&appid=KEY"
    );
}

#[test]
fn weather_address() {
    assert_eq!(
        weather_url("-0.1276", "51.5073", "KEY"),
        "https://api.openweathermap.org/data/2.5/weather?lon=-0.1276&lat=51.5073&appid=KEY&units=metric"
    );
}

#[test]
fn geocoding_address_escapes_the_city() {
    assert_eq!(
        geocoding_url("A&B=C#", "KEY"),
        "https://api.openweathermap.org/geo/1.0/direct?q=A%26B%3DC%23&limit=1&appid=KEY"
    );
}

#[test]
fn query_escaping() {
    assert_eq!(escape_query("São Paulo"), "S%C3%A3o%20Paulo");
    assert_eq!(escape_query("Saint-Étienne"), "Saint-%C3%89tienne");
    assert_eq!(escape_query("a.b_c~d"), "a.b_c~d");
    assert_eq!(escape_query(""), "");
    assert_eq!(escape_query("東京"), "%E6%9D%B1%E4%BA%AC");
}
