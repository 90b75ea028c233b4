[package]
name = "hass_collector"
version = "0.1.0"
edition = "2021"
publish = false

[dependencies]
async-channel = "=2.5.0"
bytes = "=1.12.1"
chrono = "=0.4.45"
clap = { version = "=4.6.7", features = ["derive", "env"] }
compact_str = "=0.9.1"
futures = "=0.3.34"
hass-rs = "=0.5.0"
influxdb = { version = "=0.8.0", features = ["chrono"] }
influxdb-config = "=0.8.2"
parking_lot = "=0.13.0"
regex = "=1.13.1"
rumqttc = "=0.25.1"
serde = { version = "=1.0.229", features = ["derive"] }
serde_json = "=1.0.154"
thiserror = "=2.0.21"
tokio = { version = "=1.54.1", features = ["macros", "rt", "signal", "sync", "time"] }
tracing = "=0.1.44"
tracing-subscriber = { version = "=0.3.23", features = ["env-filter"] }
