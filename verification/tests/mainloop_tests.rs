use weather_station::config::{WiFiConfig, WifiAuth};
use weather_station::event_log::EventLog;
use weather_station::mainloop::{
    apply_fetch_result, handle_movement_event, listener_step, plan_tick, MqttEvent,
    MOVEMENT_TOPIC,
};
use weather_station::weather::{WeatherCache, WeatherRecord};

fn berlin_record() -> WeatherRecord {
    WeatherRecord {
        city: String::from("Berlin"),
        description: String::from("light rain"),
        icon_code: String::from("10d"),
        temperature_deci_celsius: 213,
        humidity_percent: 65,
        wind_speed_deci_mps: 32,
    }
}

#[test]
fn test_plan_tick_skips_same_second() {
    // 2024-07-15T12:30:45Z -> local second 45
    let plan = plan_tick(1721046645, 0, 45);
    assert!(plan.skip);
    assert!(!plan.refresh_weather);
}

#[test]
fn test_plan_tick_refresh_when_due() {
    let plan = plan_tick(1721046645, 0, 44);
    assert!(!plan.skip);
    assert!(plan.refresh_weather);
    assert_eq!(plan.local.hour, 14);
    assert_eq!(plan.local.second, 45);
}

#[test]
fn test_plan_tick_no_refresh_within_interval() {
    let now = 1721046645u64;
    let plan = plan_tick(now, now - 100, 44);
    assert!(!plan.skip);
    assert!(!plan.refresh_weather);
}

#[test]
fn test_apply_fetch_success() {
    let mut cache = WeatherCache::new();
    let mut last_fetch = 0u64;
    let redraw = apply_fetch_result(&mut cache, &mut last_fetch, Some(berlin_record()), 1721046645);
    assert!(redraw);
    assert_eq!(last_fetch, 1721046645);
    assert_eq!(cache.get().as_ref().expect("cached").city, "Berlin");
}

#[test]
fn test_apply_fetch_failure_leaves_cache_unchanged() {
    let mut cache = WeatherCache::new();
    let mut last_fetch = 0u64;
    cache.set(berlin_record());
    let redraw = apply_fetch_result(&mut cache, &mut last_fetch, None, 1721046645);
    assert!(!redraw);
    assert_eq!(last_fetch, 0);
    assert_eq!(cache.get().as_ref().expect("kept").city, "Berlin");
}

#[test]
fn test_listener_subscription_lifecycle() {
    let (s, m) = listener_step(false, &MqttEvent::Connected);
    assert!(!s && !m);
    let (s, m) = listener_step(s, &MqttEvent::Subscribed);
    assert!(s && !m);
    let (s, m) = listener_step(s, &MqttEvent::Disconnected);
    assert!(!s && !m);
}

#[test]
fn test_listener_movement_detection() {
    let event = MqttEvent::Received {
        topic: Some(String::from(MOVEMENT_TOPIC)),
        data: vec![b'1'],
    };
    // before the subscription is confirmed: ignored
    let (_, m) = listener_step(false, &event);
    assert!(!m);
    // after confirmation: detected
    let (s, m) = listener_step(true, &event);
    assert!(s && m);
}

#[test]
fn test_listener_ignores_other_payloads_and_topics() {
    let wrong_payload = MqttEvent::Received {
        topic: Some(String::from(MOVEMENT_TOPIC)),
        data: vec![b'0'],
    };
    assert!(!listener_step(true, &wrong_payload).1);
    let wrong_topic = MqttEvent::Received {
        topic: Some(String::from("Temperatur")),
        data: vec![b'1'],
    };
    assert!(!listener_step(true, &wrong_topic).1);
    let no_topic = MqttEvent::Received { topic: None, data: vec![b'1'] };
    assert!(!listener_step(true, &no_topic).1);
    let empty = MqttEvent::Received {
        topic: Some(String::from(MOVEMENT_TOPIC)),
        data: Vec::new(),
    };
    assert!(!listener_step(true, &empty).1);
}

#[test]
fn test_handle_movement_event_stamps_local_time() {
    let mut log = EventLog::new();
    // 2024-07-15T12:30:45Z -> 14:30:45 CEST
    handle_movement_event(&mut log, 1721046645);
    assert_eq!(log.snapshot(), vec![String::from("14:30:45")]);
}

#[test]
fn test_wifi_auth_mode() {
    let open = WiFiConfig { ssid: String::from("net"), password: String::new() };
    assert_eq!(open.auth_mode(), WifiAuth::Open);
    let locked = WiFiConfig { ssid: String::from("net"), password: String::from("pw") };
    assert_eq!(locked.auth_mode(), WifiAuth::Wpa2Personal);
}
