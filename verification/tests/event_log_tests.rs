use weather_station::event_log::EventLog;

#[test]
fn test_event_log_starts_empty() {
    let log = EventLog::new();
    assert_eq!(log.len(), 0);
    assert!(log.snapshot().is_empty());
}

#[test]
fn test_event_log_newest_first() {
    let mut log = EventLog::new();
    log.push(String::from("10:00:00"));
    log.push(String::from("10:00:01"));
    log.push(String::from("10:00:02"));
    assert_eq!(
        log.snapshot(),
        vec![
            String::from("10:00:02"),
            String::from("10:00:01"),
            String::from("10:00:00"),
        ]
    );
}

#[test]
fn test_event_log_seven_pushes_keep_six_most_recent() {
    let mut log = EventLog::new();
    for i in 1..=7 {
        log.push(format!("10:00:0{}", i));
    }
    let snap = log.snapshot();
    assert_eq!(snap.len(), 6);
    assert_eq!(
        snap,
        vec![
            String::from("10:00:07"),
            String::from("10:00:06"),
            String::from("10:00:05"),
            String::from("10:00:04"),
            String::from("10:00:03"),
            String::from("10:00:02"),
        ]
    );
}

#[test]
fn test_event_log_snapshot_is_a_copy() {
    let mut log = EventLog::new();
    log.push(String::from("09:59:59"));
    let snap = log.snapshot();
    log.push(String::from("10:00:00"));
    assert_eq!(snap, vec![String::from("09:59:59")]);
    assert_eq!(log.len(), 2);
}
