//! Static configuration loaded once at startup: network credentials, the
//! weather query, and the message-bus account. Parsing the configuration
//! file is left to the embedding program; the values arrive here already
//! validated.

use vstd::prelude::*;

verus! {

/// Credentials of the wireless network to join.
#[derive(Debug)]
pub struct WiFiConfig {
    pub ssid: String,
    pub password: String,
}

/// How the network join authenticates.
#[derive(Clone, Copy, PartialEq, Eq, Structural, Debug)]
pub enum WifiAuth {
    Open,
    Wpa2Personal,
}

impl WiFiConfig {
    /// The authentication mode the join uses: open exactly when no password
    /// is configured.
    pub fn auth_mode(&self) -> (r: WifiAuth)
        ensures
            r == (if self.password@.len() == 0 {
                WifiAuth::Open
            } else {
                WifiAuth::Wpa2Personal
            }),
    {
        if self.password.as_str().is_empty() {
            WifiAuth::Open
        } else {
            WifiAuth::Wpa2Personal
        }
    }
}

/// The weather service account and the city queried.
#[derive(Debug)]
pub struct OpenWeatherConfig {
    pub api_key: String,
    pub city: String,
}

/// The message-bus broker and its credentials.
#[derive(Debug)]
pub struct MqttConfig {
    pub broker_url: String,
    pub mqtt_user: String,
    pub mqtt_pw: String,
}

/// Everything the station needs to come up.
#[derive(Debug)]
pub struct Secrets {
    pub wifi: WiFiConfig,
    pub openweather: OpenWeatherConfig,
    pub mqtt: MqttConfig,
}

} // verus!
