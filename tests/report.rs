use thunderman::forecast::{
    Forecast, ForecastPeriod, ForecastProps, PointInfo, PointProps, RelativeLocation, RelativeProps,
    Timestamp,
};
use thunderman::geo::{point_url, Point};
use thunderman::report::{forecast_url, report_window, ForecastVariant};

fn at(seconds: i64) -> Timestamp {
    Timestamp { seconds, nanos: 0 }
}

fn hourly_periods(count: u16) -> Vec<ForecastPeriod> {
    let mut v = Vec::new();
    for n in 1..=count {
        let start = 1_700_000_000 + 3600 * n as i64;
        v.push(ForecastPeriod {
            number: n,
            name: String::new(),
            start_time: at(start),
            end_time: at(start + 3600),
            is_day_time: true,
            temperature: 50 + n as i8,
            temperature_unit: String::from("F"),
            wind_speed: Some(String::from("5 mph")),
            wind_direction: Some(String::from("S")),
            icon: String::new(),
            short_forecast: format!("Clear {}", n),
            detailed_forecast: String::new(),
        });
    }
    v
}

fn forecast(periods: Vec<ForecastPeriod>) -> Forecast {
    Forecast {
        properties: ForecastProps {
            updated: at(1_700_000_000),
            units: String::from("us"),
            generated_at: at(1_700_000_000),
            elevation: serde_json::Value::Null,
            periods,
        },
    }
}

fn metadata() -> PointInfo {
    let s = |t: &str| String::from(t);
    PointInfo {
        id: s("https://api.weather.gov/points/35.05,-106.65"),
        properties: PointProps {
            forecast_office: s("https://api.weather.gov/offices/ABQ"),
            forecast: s("https://api.weather.gov/gridpoints/ABQ/97,121/forecast"),
            forecast_hourly: s("https://api.weather.gov/gridpoints/ABQ/97,121/forecast/hourly"),
            forecast_grid_data: s("https://api.weather.gov/gridpoints/ABQ/97,121"),
            observation_stations: s("https://api.weather.gov/gridpoints/ABQ/97,121/stations"),
            relative_location: RelativeLocation {
                geometry: serde_json::Value::Null,
                properties: RelativeProps {
                    city: s("Albuquerque"),
                    state: s("NM"),
                    distance: serde_json::Value::Null,
                    bearing: serde_json::Value::Null,
                },
            },
            forecast_zone: s("https://api.weather.gov/zones/forecast/NMZ219"),
            county: s("https://api.weather.gov/zones/county/NMC001"),
            fire_weather_zone: s("https://api.weather.gov/zones/fire/NMZ107"),
            time_zone: s("America/Denver"),
            radar_station: s("KABX"),
        },
    }
}

#[test]
fn hourly_report_shows_first_ten_periods() {
    let p = Point::new(35_050_000, -106_650_000);
    assert_eq!(point_url(&p), "http://api.weather.gov/points/35.05,-106.65");
    let info = metadata();
    let url = forecast_url(&info, ForecastVariant::Hourly);
    assert!(url.ends_with("/hourly"));
    assert_eq!(url, "https://api.weather.gov/gridpoints/ABQ/97,121/forecast/hourly");
    let fc = forecast(hourly_periods(12));
    let lines = report_window(&fc);
    assert_eq!(lines.len(), 10);
    for (i, line) in lines.iter().enumerate() {
        let p = &fc.properties.periods[i];
        assert_eq!(line.start, p.start_time);
        assert_eq!(line.end, p.end_time);
        assert_eq!(line.temperature, p.temperature);
        assert_eq!(line.short_forecast, p.short_forecast);
    }
    assert!(lines.windows(2).all(|w| w[0].start.seconds < w[1].start.seconds));
}

#[test]
fn standard_forecast_url_is_taken_verbatim() {
    let info = metadata();
    assert_eq!(
        forecast_url(&info, ForecastVariant::Standard),
        "https://api.weather.gov/gridpoints/ABQ/97,121/forecast"
    );
}

#[test]
fn short_forecast_is_shown_whole() {
    let fc = forecast(hourly_periods(3));
    let lines = report_window(&fc);
    assert_eq!(lines.len(), 3);
    assert_eq!(lines[2].short_forecast, "Clear 3");
    assert_eq!(lines[0].temperature, 51);
}

#[test]
fn empty_forecast_shows_nothing() {
    let fc = forecast(Vec::new());
    assert!(report_window(&fc).is_empty());
}

#[test]
fn exactly_ten_periods_fill_the_window() {
    let fc = forecast(hourly_periods(10));
    let lines = report_window(&fc);
    assert_eq!(lines.len(), 10);
    assert_eq!(lines[9].short_forecast, "Clear 10");
}
