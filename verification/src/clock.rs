//! Conversion of a UTC epoch-seconds instant into local Central European
//! civil time (CET in winter, CEST in summer), using the proleptic Gregorian
//! calendar and the project's closed-form last-Sunday rule for the DST
//! changeover days.

use vstd::prelude::*;

verus! {

/// Largest UTC instant accepted by the converters (2h before the end of
/// year 9999, so that the shifted local instant stays in year 9999).
pub const MAX_EPOCH_SECS: i64 = 253_402_293_599;

/// Largest instant ever decomposed: a local instant lies at most 2h past the
/// corresponding UTC instant.
pub const MAX_LOCAL_EPOCH_SECS: i64 = MAX_EPOCH_SECS + 7200;

// ---------------------------------------------------------------------------
// The proleptic Gregorian calendar
// ---------------------------------------------------------------------------

pub open spec fn is_leap_year(y: int) -> bool {
    (y % 4 == 0 && y % 100 != 0) || y % 400 == 0
}

pub open spec fn days_in_year(y: int) -> int {
    if is_leap_year(y) {
        366
    } else {
        365
    }
}

pub open spec fn days_in_month(y: int, m: int) -> int {
    if m == 2 {
        if is_leap_year(y) {
            29
        } else {
            28
        }
    } else if m == 4 || m == 6 || m == 9 || m == 11 {
        30
    } else {
        31
    }
}

/// Days from the first day of January to the first day of month `m` of
/// year `y`.
pub open spec fn days_before_month(y: int, m: int) -> int
    decreases m,
{
    if m <= 1 {
        0
    } else {
        days_before_month(y, m - 1) + days_in_month(y, m - 1)
    }
}

/// Walks whole years forward from year `y`, consuming `days`: yields the year
/// reached and the days left within it.
pub open spec fn year_split(days: int, y: int) -> (int, int)
    decreases days,
{
    if days < days_in_year(y) {
        (y, days)
    } else {
        year_split(days - days_in_year(y), y + 1)
    }
}

/// Walks whole months of year `y` forward from month `m`, consuming `days`:
/// yields the month reached and the days left within it.
pub open spec fn month_split(y: int, days: int, m: int) -> (int, int)
    decreases 12 - m,
{
    if m >= 12 || days < days_in_month(y, m) {
        (m, days)
    } else {
        month_split(y, days - days_in_month(y, m), m + 1)
    }
}

/// Calendar date (year, month, day) of the UTC instant `ts` seconds after
/// the epoch.
pub open spec fn civil_ymd(ts: int) -> (int, int, int) {
    let (y, yd) = year_split(ts / 86400, 1970);
    let (m, md) = month_split(y, yd, 1);
    (y, m, md + 1)
}

/// Wall-clock (hour, minute, second) of the UTC instant `ts` seconds after
/// the epoch.
pub open spec fn civil_hms(ts: int) -> (int, int, int) {
    let rem = ts % 86400;
    (rem / 3600, (rem % 3600) / 60, rem % 60)
}

proof fn lemma_year_months(y: int)
    ensures
        days_before_month(y, 13) == days_in_year(y),
{
    reveal_with_fuel(days_before_month, 13);
}

fn leap_year(y: u32) -> (r: bool)
    ensures
        r == is_leap_year(y as int),
{
    (y % 4 == 0 && y % 100 != 0) || y % 400 == 0
}

fn days_in_year_x(y: u32) -> (r: u32)
    ensures
        r as int == days_in_year(y as int),
{
    if leap_year(y) {
        366
    } else {
        365
    }
}

fn days_in_month_x(y: u32, m: u32) -> (r: u32)
    ensures
        r as int == days_in_month(y as int, m as int),
{
    if m == 2 {
        if leap_year(y) {
            29
        } else {
            28
        }
    } else if m == 4 || m == 6 || m == 9 || m == 11 {
        30
    } else {
        31
    }
}

/// Decomposes a UTC epoch-seconds instant into proleptic Gregorian calendar
/// fields `(year, month, day, hour, minute, second)`.
pub fn civil_from_epoch(ts: i64) -> (r: (i32, u32, u32, u32, u32, u32))
    requires
        0 <= ts <= MAX_LOCAL_EPOCH_SECS,
    ensures
        ({
            let (y, m, d) = civil_ymd(ts as int);
            let (h, mi, s) = civil_hms(ts as int);
            &&& r.0 as int == y
            &&& r.1 as int == m
            &&& r.2 as int == d
            &&& r.3 as int == h
            &&& r.4 as int == mi
            &&& r.5 as int == s
            &&& 1970 <= y <= 12000
            &&& 1 <= m <= 12
            &&& 1 <= d <= 31
            &&& 0 <= h < 24
            &&& 0 <= mi < 60
            &&& 0 <= s < 60
        }),
{
    let tsu: u64 = ts as u64;
    let days_total: u64 = tsu / 86400;
    let rem: u64 = tsu % 86400;
    let hour: u32 = (rem / 3600) as u32;
    let minute: u32 = ((rem % 3600) / 60) as u32;
    let second: u32 = (rem % 60) as u32;

    let ghost dt: int = days_total as int;
    let mut year: u32 = 1970;
    let mut days: u64 = days_total;
    while days >= days_in_year_x(year) as u64
        invariant
            1970 <= year,
            dt <= 2_933_000,
            365 * (year as int - 1970) + days as int <= dt,
            year_split(dt, 1970) == year_split(days as int, year as int),
        decreases days,
    {
        days = days - days_in_year_x(year) as u64;
        year = year + 1;
    }

    let ghost yd: int = days as int;
    let mut month: u32 = 1;
    while month < 12 && days >= days_in_month_x(year, month) as u64
        invariant
            1 <= month <= 12,
            yd < days_in_year(year as int),
            days_before_month(year as int, month as int) + days as int == yd,
            month_split(year as int, yd, 1) == month_split(year as int, days as int, month as int),
        decreases 12 - month,
    {
        days = days - days_in_month_x(year, month) as u64;
        month = month + 1;
    }
    proof {
        lemma_year_months(year as int);
    }
    let day: u32 = days as u32 + 1;
    (year as i32, month, day, hour, minute, second)
}

// ---------------------------------------------------------------------------
// The DST rule
// ---------------------------------------------------------------------------

/// Day of the month of the last Sunday of March, by the project's closed-form
/// approximation `31 - ((5*y/4 + 4) % 7)`. Deliberately kept as-is, including
/// its division semantics: downstream behaviour depends on its exact output.
pub open spec fn march_last_sunday(y: int) -> int {
    31 - ((5 * y / 4 + 4) % 7)
}

/// Day of the month of the last Sunday of October, by the closed-form
/// approximation `31 - ((5*y/4 + 1) % 7)`.
pub open spec fn october_last_sunday(y: int) -> int {
    31 - ((5 * y / 4 + 1) % 7)
}

/// Whether Central European Summer Time is active at the given UTC civil
/// time: never in November-February, always in April-September, from the
/// last Sunday of March 02:00 UTC, and until the last Sunday of October
/// 03:00 UTC.
pub open spec fn dst_spec(y: int, month: int, day: int, hour: int) -> bool {
    if month == 3 {
        day > march_last_sunday(y) || (day == march_last_sunday(y) && hour >= 2)
    } else if 4 <= month && month <= 9 {
        true
    } else if month == 10 {
        day < october_last_sunday(y) || (day == october_last_sunday(y) && hour < 3)
    } else {
        false
    }
}

/// Whether the given UTC civil time falls under Daylight Saving Time (CEST).
/// The year is bounded only so the closed-form arithmetic stays in range.
pub fn is_dst(year: i32, month: u32, day: u32, hour: u32) -> (r: bool)
    requires
        0 <= year <= 400_000_000,
    ensures
        r == dst_spec(year as int, month as int, day as int, hour as int),
{
    let march_last_sunday_day: u64 = 31 - ((5 * (year as u64) / 4 + 4) % 7);
    let october_last_sunday_day: u64 = 31 - ((5 * (year as u64) / 4 + 1) % 7);
    match month {
        1 | 2 => false,
        3 => {
            if (day as u64) < march_last_sunday_day {
                false
            } else if (day as u64) > march_last_sunday_day {
                true
            } else {
                hour >= 2
            }
        },
        4..=9 => true,
        10 => {
            if (day as u64) < october_last_sunday_day {
                true
            } else if (day as u64) > october_last_sunday_day {
                false
            } else {
                hour < 3
            }
        },
        11 | 12 => false,
        _ => false,
    }
}

/// The zone label for a DST flag: "CEST" while summer time is active,
/// "CET" otherwise.
pub open spec fn spec_zone_label(dst: bool) -> Seq<char> {
    if dst {
        "CEST"@
    } else {
        "CET"@
    }
}

/// The time-zone label for the given UTC civil time.
pub fn get_timezone_str(year: i32, month: u32, day: u32, hour: u32) -> (r: &'static str)
    requires
        0 <= year <= 400_000_000,
    ensures
        r@ == spec_zone_label(dst_spec(year as int, month as int, day as int, hour as int)),
{
    if is_dst(year, month, day, hour) {
        "CEST"
    } else {
        "CET"
    }
}

// ---------------------------------------------------------------------------
// Local time
// ---------------------------------------------------------------------------

/// Whether DST is active at the UTC instant `ts`.
pub open spec fn dst_at(ts: int) -> bool {
    let (y, m, d) = civil_ymd(ts);
    dst_spec(y, m, d, civil_hms(ts).0)
}

/// Seconds to add to a UTC instant to obtain the local instant: +2h under
/// CEST, +1h under CET.
pub open spec fn utc_offset_secs(ts: int) -> int {
    if dst_at(ts) {
        7200
    } else {
        3600
    }
}

pub open spec fn local_epoch(ts: int) -> int {
    ts + utc_offset_secs(ts)
}

#[derive(Clone, Copy, PartialEq, Eq, Structural, Debug)]
pub enum ZoneLabel {
    Cet,
    Cest,
}

impl ZoneLabel {
    /// The label as it is shown on the display.
    pub fn as_str(&self) -> (r: &'static str)
        ensures
            r@ == spec_zone_label(*self == ZoneLabel::Cest),
    {
        match self {
            ZoneLabel::Cest => "CEST",
            ZoneLabel::Cet => "CET",
        }
    }
}

/// Local civil time: calendar and wall-clock fields of the shifted instant,
/// labelled with the zone that produced the shift.
#[derive(Clone, Copy, PartialEq, Eq, Structural, Debug)]
pub struct LocalTime {
    pub year: i32,
    pub month: u32,
    pub day: u32,
    pub hour: u32,
    pub minute: u32,
    pub second: u32,
    pub zone_label: ZoneLabel,
}

/// The local civil time of the UTC instant `ts`: the decomposition of
/// `ts + utc_offset_secs(ts)`, labelled CEST exactly when DST is active
/// at `ts`.
pub open spec fn to_local_spec(ts: int) -> LocalTime {
    let lts = local_epoch(ts);
    let (y, m, d) = civil_ymd(lts);
    let (h, mi, s) = civil_hms(lts);
    LocalTime {
        year: y as i32,
        month: m as u32,
        day: d as u32,
        hour: h as u32,
        minute: mi as u32,
        second: s as u32,
        zone_label: if dst_at(ts) {
            ZoneLabel::Cest
        } else {
            ZoneLabel::Cet
        },
    }
}

/// Converts a UTC epoch-seconds instant to local (Berlin) civil time.
pub fn to_local(utc_epoch_seconds: i64) -> (r: LocalTime)
    requires
        0 <= utc_epoch_seconds <= MAX_EPOCH_SECS,
    ensures
        r == to_local_spec(utc_epoch_seconds as int),
        1970 <= r.year <= 12000,
        1 <= r.month <= 12,
        1 <= r.day <= 31,
        r.hour < 24,
        r.minute < 60,
        r.second < 60,
{
    let (year, month, day, hour, _minute, _second) = civil_from_epoch(utc_epoch_seconds);
    let dst = is_dst(year, month, day, hour);
    let offset: i64 = if dst {
        7200
    } else {
        3600
    };
    let (ly, lm, ld, lh, lmi, ls) = civil_from_epoch(utc_epoch_seconds + offset);
    LocalTime {
        year: ly,
        month: lm,
        day: ld,
        hour: lh,
        minute: lmi,
        second: ls,
        zone_label: if dst {
            ZoneLabel::Cest
        } else {
            ZoneLabel::Cet
        },
    }
}

/// Converts UTC epoch seconds to the Berlin local field tuple
/// `(year, month, day, hour, minute, second)`.
pub fn utc_to_berlin(utc_timestamp: i64) -> (r: (i32, u32, u32, u32, u32, u32))
    requires
        0 <= utc_timestamp <= MAX_EPOCH_SECS,
    ensures
        ({
            let lt = to_local_spec(utc_timestamp as int);
            r == (lt.year, lt.month, lt.day, lt.hour, lt.minute, lt.second)
        }),
{
    let lt = to_local(utc_timestamp);
    (lt.year, lt.month, lt.day, lt.hour, lt.minute, lt.second)
}

// ---------------------------------------------------------------------------
// The DST boundary law
// ---------------------------------------------------------------------------

/// The civil time lies at or past this year's spring changeover instant
/// (last Sunday of March, 02:00 UTC).
pub open spec fn at_or_past_spring_boundary(y: int, m: int, d: int, h: int) -> bool {
    m > 3 || (m == 3 && (d > march_last_sunday(y) || (d == march_last_sunday(y) && h >= 2)))
}

/// The civil time lies before this year's autumn changeover instant
/// (last Sunday of October, 03:00 UTC).
pub open spec fn before_autumn_boundary(y: int, m: int, d: int, h: int) -> bool {
    m < 10 || (m == 10 && (d < october_last_sunday(y) || (d == october_last_sunday(y) && h < 3)))
}

/// Law: DST holds exactly on the half-open interval from the spring boundary
/// (inclusive) to the autumn boundary (exclusive) of the same year, so the
/// zone switches CET to CEST exactly at the last-Sunday-of-March 02:00 UTC
/// boundary and back exactly at the last-Sunday-of-October 03:00 UTC
/// boundary — per the project's closed-form rule, not true calendar truth.
pub proof fn lemma_dst_boundaries(y: int, m: int, d: int, h: int)
    requires
        1 <= m <= 12,
    ensures
        dst_spec(y, m, d, h) <==> (at_or_past_spring_boundary(y, m, d, h)
            && before_autumn_boundary(y, m, d, h)),
{
}

/// Law, restated for instants: `to_local` labels the instant CEST exactly
/// when its UTC civil time lies between the two changeover boundaries.
pub proof fn lemma_zone_label_boundaries(ts: int)
    requires
        0 <= ts,
    ensures
        ({
            let (y, m, d) = civil_ymd(ts);
            let h = civil_hms(ts).0;
            to_local_spec(ts).zone_label == ZoneLabel::Cest <==> (at_or_past_spring_boundary(
                y,
                m,
                d,
                h,
            ) && before_autumn_boundary(y, m, d, h))
        }),
{
    let (y, m, d) = civil_ymd(ts);
    lemma_civil_ymd_ranges(ts);
    lemma_dst_boundaries(y, m, d, civil_hms(ts).0);
}

/// The decomposition of a non-negative instant yields a valid calendar date.
pub proof fn lemma_civil_ymd_ranges(ts: int)
    requires
        0 <= ts,
    ensures
        ({
            let (y, m, d) = civil_ymd(ts);
            1970 <= y && 1 <= m <= 12 && 1 <= d <= 31
        }),
{
    lemma_year_split_ranges(ts / 86400, 1970);
    let (y, yd) = year_split(ts / 86400, 1970);
    lemma_month_split_ranges(y, yd, 1);
}

proof fn lemma_year_split_ranges(days: int, y: int)
    requires
        0 <= days,
    ensures
        y <= year_split(days, y).0,
        0 <= year_split(days, y).1 < days_in_year(year_split(days, y).0),
    decreases days,
{
    if days >= days_in_year(y) {
        lemma_year_split_ranges(days - days_in_year(y), y + 1);
    }
}

proof fn lemma_month_split_ranges(y: int, days: int, m: int)
    requires
        0 <= days < days_in_year(y),
        1 <= m <= 12,
        days_before_month(y, m) + days < days_in_year(y),
    ensures
        m <= month_split(y, days, m).0 <= 12,
        0 <= month_split(y, days, m).1,
        month_split(y, days, m).1 < days_in_month(y, month_split(y, days, m).0),
    decreases 12 - m,
{
    if !(m >= 12 || days < days_in_month(y, m)) {
        lemma_month_split_ranges(y, days - days_in_month(y, m), m + 1);
    } else if m >= 12 && days >= days_in_month(y, m) {
        lemma_year_months(y);
        assert(false);
    }
}

} // verus!
