//! The weather data model and its single-slot cache.
//!
//! A fetched record is stored wholesale and replaced wholesale; the cache is
//! empty until the first successful fetch. Temperatures and wind speeds are
//! carried as signed tenths (one digit after the decimal point), exactly the
//! precision the display shows. Fetching itself is an external collaborator;
//! the embedding program hands the parsed record in.

use vstd::prelude::*;

verus! {

/// Seconds between two weather fetches.
pub const REFRESH_INTERVAL_SECS: u64 = 900;

/// The subset of a remote weather-service response that the station shows.
#[derive(Debug, PartialEq)]
pub struct WeatherRecord {
    /// Name of the city the record describes.
    pub city: String,
    /// Short textual condition description.
    pub description: String,
    /// Condition icon code, e.g. `"10d"`.
    pub icon_code: String,
    /// Temperature in tenths of a degree Celsius.
    pub temperature_deci_celsius: i32,
    /// Relative humidity in percent.
    pub humidity_percent: i32,
    /// Wind speed in tenths of a metre per second.
    pub wind_speed_deci_mps: i32,
}

pub ghost struct WeatherRecordView {
    pub city: Seq<char>,
    pub description: Seq<char>,
    pub icon_code: Seq<char>,
    pub temperature_deci_celsius: int,
    pub humidity_percent: int,
    pub wind_speed_deci_mps: int,
}

impl View for WeatherRecord {
    type V = WeatherRecordView;

    open spec fn view(&self) -> WeatherRecordView {
        WeatherRecordView {
            city: self.city@,
            description: self.description@,
            icon_code: self.icon_code@,
            temperature_deci_celsius: self.temperature_deci_celsius as int,
            humidity_percent: self.humidity_percent as int,
            wind_speed_deci_mps: self.wind_speed_deci_mps as int,
        }
    }
}

pub open spec fn opt_record_view(w: Option<WeatherRecord>) -> Option<WeatherRecordView> {
    match w {
        Option::Some(r) => Option::Some(r@),
        Option::None => Option::None,
    }
}

/// Single-slot holder for the most recently fetched weather record.
pub struct WeatherCache {
    slot: Option<WeatherRecord>,
}

impl View for WeatherCache {
    type V = Option<WeatherRecordView>;

    closed spec fn view(&self) -> Option<WeatherRecordView> {
        opt_record_view(self.slot)
    }
}

/// A fetch is due when none has succeeded yet (`last_fetch == 0`) or the
/// refresh interval has elapsed since the last one.
pub open spec fn should_refresh_spec(now: int, last_fetch: int) -> bool {
    last_fetch == 0 || now >= last_fetch + REFRESH_INTERVAL_SECS
}

impl WeatherCache {
    /// An empty cache: nothing fetched yet.
    pub fn new() -> (r: WeatherCache)
        ensures
            r@ == Option::<WeatherRecordView>::None,
    {
        WeatherCache { slot: None }
    }

    /// Whether a new fetch is due at `now_epoch_seconds`, the previous
    /// successful fetch having happened at `last_fetch_epoch_seconds`
    /// (0 meaning never).
    pub fn should_refresh(now_epoch_seconds: u64, last_fetch_epoch_seconds: u64) -> (r: bool)
        ensures
            r == should_refresh_spec(now_epoch_seconds as int, last_fetch_epoch_seconds as int),
    {
        last_fetch_epoch_seconds == 0 || (now_epoch_seconds >= last_fetch_epoch_seconds
            && now_epoch_seconds - last_fetch_epoch_seconds >= REFRESH_INTERVAL_SECS)
    }

    /// Replaces the cached record wholesale.
    pub fn set(&mut self, record: WeatherRecord)
        ensures
            final(self)@ == Option::Some(record@),
    {
        self.slot = Some(record);
    }

    /// The cached record, if any.
    pub fn get(&self) -> (r: &Option<WeatherRecord>)
        ensures
            opt_record_view(*r) == self@,
    {
        &self.slot
    }
}

/// The message-bus topic a fetched record is published under.
pub fn weather_topic(city: &str) -> (r: String)
    ensures
        r@ == "weather/"@ + city@,
{
    let mut s = String::from_str("weather/");
    s.append(city);
    s
}

/// The HTTPS query URL for the current weather of `city`.
pub fn weather_request_url(api_key: &str, city: &str) -> (r: String)
    ensures
        r@ == "https://api.openweathermap.org/data/2.5/weather?q="@ + city@ + "&appid="@
            + api_key@ + "&units=metric&lang=en"@,
{
    let mut s = String::from_str("https://api.openweathermap.org/data/2.5/weather?q=");
    s.append(city);
    s.append("&appid=");
    s.append(api_key);
    s.append("&units=metric&lang=en");
    s
}

} // verus!
