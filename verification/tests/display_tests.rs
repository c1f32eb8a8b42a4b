use weather_station::clock::{LocalTime, ZoneLabel};
use weather_station::display_state::{
    get_weather_icon_color, get_weather_symbol, DisplayState, DisplayStateBuilder, DrawColor,
};
use weather_station::textfmt::{format_date, format_deci, format_time};
use weather_station::weather::WeatherRecord;

fn sample_local_time() -> LocalTime {
    LocalTime {
        year: 2024,
        month: 3,
        day: 31,
        hour: 6,
        minute: 0,
        second: 0,
        zone_label: ZoneLabel::Cest,
    }
}

fn berlin_record() -> WeatherRecord {
    WeatherRecord {
        city: String::from("Berlin"),
        description: String::from("light rain"),
        icon_code: String::from("10d"),
        temperature_deci_celsius: 213,
        humidity_percent: 65,
        wind_speed_deci_mps: 32,
    }
}

#[test]
fn test_format_time_padding() {
    assert_eq!(format_time(4, 5, 6), "04:05:06");
    assert_eq!(format_time(23, 59, 59), "23:59:59");
    assert_eq!(format_time(0, 0, 0), "00:00:00");
}

#[test]
fn test_format_date() {
    assert_eq!(format_date(31, 3, 2024), "31.03.2024");
    assert_eq!(format_date(1, 12, 1999), "01.12.1999");
}

#[test]
fn test_format_deci() {
    assert_eq!(format_deci(213), "21.3");
    assert_eq!(format_deci(0), "0.0");
    assert_eq!(format_deci(-5), "-0.5");
    assert_eq!(format_deci(-213), "-21.3");
    assert_eq!(format_deci(100), "10.0");
}

#[test]
fn test_build_with_weather() {
    let state = DisplayStateBuilder::build(
        &sample_local_time(),
        &Some(berlin_record()),
        vec![String::from("05:59:00")],
    );
    assert_eq!(state.time_str, "06:00:00");
    assert_eq!(state.date_str, "31.03.2024 CEST");
    assert_eq!(state.city_name, "Berlin");
    assert_eq!(state.weather_temp, "21.3\u{b0}C");
    assert_eq!(state.weather_desc, "light rain");
    assert_eq!(state.weather_icon, "10d");
    assert_eq!(state.wind_str, "W: 3.2m/s");
    assert_eq!(state.hum_str, "H: 65%");
    assert_eq!(state.movement_events, vec![String::from("05:59:00")]);
}

#[test]
fn test_build_without_weather_is_total() {
    let state = DisplayStateBuilder::build(&sample_local_time(), &None, Vec::new());
    assert_eq!(state.time_str, "06:00:00");
    assert_eq!(state.date_str, "31.03.2024 CEST");
    assert_eq!(state.city_name, "");
    assert_eq!(state.weather_temp, "");
    assert_eq!(state.weather_desc, "");
    assert_eq!(state.weather_icon, "");
    assert_eq!(state.wind_str, "");
    assert_eq!(state.hum_str, "");
    assert!(state.movement_events.is_empty());
}

#[test]
fn test_build_is_deterministic() {
    let a = DisplayStateBuilder::build(
        &sample_local_time(),
        &Some(berlin_record()),
        vec![String::from("05:59:00")],
    );
    let b = DisplayStateBuilder::build(
        &sample_local_time(),
        &Some(berlin_record()),
        vec![String::from("05:59:00")],
    );
    assert_eq!(a, b);
    assert!(a.equals(&b));
}

#[test]
fn test_states_differ() {
    let a = DisplayStateBuilder::build(&sample_local_time(), &Some(berlin_record()), Vec::new());
    let mut later = sample_local_time();
    later.second = 1;
    let b = DisplayStateBuilder::build(&later, &Some(berlin_record()), Vec::new());
    assert!(!a.equals(&b));
    assert_ne!(a, b);
}

#[test]
fn test_display_state_new_is_empty() {
    let s = DisplayState::new();
    assert_eq!(s.time_str, "");
    assert_eq!(s.city_name, "");
    assert!(s.movement_events.is_empty());
}

#[test]
fn test_icon_color_mapping() {
    assert_eq!(get_weather_icon_color("01d"), DrawColor::Yellow);
    assert_eq!(get_weather_icon_color("02n"), DrawColor::Yellow);
    assert_eq!(get_weather_icon_color("11d"), DrawColor::Yellow);
    assert_eq!(get_weather_icon_color("09n"), DrawColor::Blue);
    assert_eq!(get_weather_icon_color("10d"), DrawColor::Blue);
    assert_eq!(get_weather_icon_color("13n"), DrawColor::White);
    assert_eq!(get_weather_icon_color("03d"), DrawColor::Gray);
    assert_eq!(get_weather_icon_color("04n"), DrawColor::Gray);
    assert_eq!(get_weather_icon_color("50d"), DrawColor::Gray);
    assert_eq!(get_weather_icon_color("99x"), DrawColor::White);
    assert_eq!(get_weather_icon_color(""), DrawColor::White);
}

#[test]
fn test_symbol_mapping() {
    assert_eq!(get_weather_symbol("01d"), "\u{2600}");
    assert_eq!(get_weather_symbol("01n"), "\u{1f319}");
    assert_eq!(get_weather_symbol("02d"), "\u{1f324}");
    assert_eq!(get_weather_symbol("02n"), "\u{2601}");
    assert_eq!(get_weather_symbol("03d"), "\u{2601}");
    assert_eq!(get_weather_symbol("04n"), "\u{2601}");
    assert_eq!(get_weather_symbol("09d"), "\u{1f327}");
    assert_eq!(get_weather_symbol("10d"), "\u{1f326}");
    assert_eq!(get_weather_symbol("10n"), "\u{1f327}");
    assert_eq!(get_weather_symbol("11n"), "\u{26c8}");
    assert_eq!(get_weather_symbol("13d"), "\u{2744}");
    assert_eq!(get_weather_symbol("50n"), "\u{1f32b}");
    assert_eq!(get_weather_symbol("xyz"), "\u{2753}");
    assert_eq!(get_weather_symbol(""), "\u{2753}");
}
