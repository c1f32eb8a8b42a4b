use weather_station::clock::{
    civil_from_epoch, get_timezone_str, is_dst, to_local, utc_to_berlin, ZoneLabel,
};

#[test]
fn test_dst_calculation() {
    // March 15, 2024, 10:00 UTC -> CET (before changeover)
    assert_eq!(is_dst(2024, 3, 15, 10), false);

    // March 31, 2024, 03:00 UTC -> CEST (after changeover)
    assert_eq!(is_dst(2024, 3, 31, 3), true);

    // July 15, 2024, 12:00 UTC -> CEST
    assert_eq!(is_dst(2024, 7, 15, 12), true);

    // October 27, 2024, 02:00 UTC -> CET (after changeover)
    assert_eq!(is_dst(2024, 10, 27, 4), false);

    // December 15, 2024, 18:00 UTC -> CET
    assert_eq!(is_dst(2024, 12, 15, 18), false);
}

#[test]
fn test_timezone_str() {
    assert_eq!(get_timezone_str(2024, 7, 15, 12), "CEST");
    assert_eq!(get_timezone_str(2024, 12, 15, 18), "CET");
    assert_eq!(get_timezone_str(2024, 3, 31, 1), "CET");
    assert_eq!(get_timezone_str(2024, 3, 31, 2), "CEST");
    assert_eq!(get_timezone_str(2024, 10, 27, 2), "CEST");
    assert_eq!(get_timezone_str(2024, 10, 27, 3), "CET");
}

#[test]
fn test_civil_from_epoch_origin() {
    assert_eq!(civil_from_epoch(0), (1970, 1, 1, 0, 0, 0));
    assert_eq!(civil_from_epoch(86399), (1970, 1, 1, 23, 59, 59));
    assert_eq!(civil_from_epoch(86400), (1970, 1, 2, 0, 0, 0));
}

#[test]
fn test_civil_from_epoch_leap_day() {
    // 2024-02-29T00:00:00Z
    assert_eq!(civil_from_epoch(1709164800), (2024, 2, 29, 0, 0, 0));
    // 2024-03-01T00:00:00Z
    assert_eq!(civil_from_epoch(1709251200), (2024, 3, 1, 0, 0, 0));
    // 2023-03-01T00:00:00Z (not a leap year)
    assert_eq!(civil_from_epoch(1677628800), (2023, 3, 1, 0, 0, 0));
}

#[test]
fn test_to_local_dst_boundary_march() {
    // 2024-03-31T04:00:00Z, past the changeover: +2h, CEST
    let lt = to_local(1711857600);
    assert_eq!(
        (lt.year, lt.month, lt.day, lt.hour, lt.minute, lt.second),
        (2024, 3, 31, 6, 0, 0)
    );
    assert_eq!(lt.zone_label, ZoneLabel::Cest);

    // one second before the 02:00 UTC boundary: still CET, +1h
    let before = to_local(1711850399);
    assert_eq!(before.zone_label, ZoneLabel::Cet);
    assert_eq!((before.hour, before.minute, before.second), (2, 59, 59));

    // exactly at the boundary: CEST, +2h
    let at = to_local(1711850400);
    assert_eq!(at.zone_label, ZoneLabel::Cest);
    assert_eq!((at.hour, at.minute, at.second), (4, 0, 0));
}

#[test]
fn test_to_local_dst_boundary_october() {
    // one second before the 03:00 UTC boundary on 2024-10-27: still CEST
    let before = to_local(1729997999);
    assert_eq!(before.zone_label, ZoneLabel::Cest);
    assert_eq!((before.hour, before.minute, before.second), (4, 59, 59));

    // exactly at the boundary: CET again
    let at = to_local(1729998000);
    assert_eq!(at.zone_label, ZoneLabel::Cet);
    assert_eq!((at.hour, at.minute, at.second), (4, 0, 0));
}

#[test]
fn test_utc_to_berlin_winter() {
    // 2024-12-15T18:00:00Z -> 19:00 CET
    let ts = 1734285600;
    assert_eq!(utc_to_berlin(ts), (2024, 12, 15, 19, 0, 0));
}

#[test]
fn test_utc_to_berlin_summer() {
    // 2024-07-15T12:30:45Z -> 14:30:45 CEST
    let ts = 1721046645;
    assert_eq!(utc_to_berlin(ts), (2024, 7, 15, 14, 30, 45));
}
