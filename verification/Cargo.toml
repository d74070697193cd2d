[package]
name = "signalk_plugins"
version = "0.1.0"
edition = "2021"
publish = false

[dependencies]
ais = "*"
async-trait = "0.1"
chrono = "0.4"
moon-phase = "*"
nmea = "*"
nmea2000 = "*"
schemars = "*"
serde = { version = "1", features = ["derive"] }
serde_json = "1"
tokio = { version = "1", features = ["full"] }
tokio-serial = "5"
tracing = "0.1"
