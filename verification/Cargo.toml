[package]
name = "weather_station"
version = "0.1.0"
edition = "2021"
publish = false

[dependencies]
anyhow = "1"
embedded-graphics = "0.8"
log = "0.4"
profont = "0.7"
serde = { version = "1", features = ["derive"] }
serde_json = "1"
toml = "0.8"
