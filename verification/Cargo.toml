[package]
name = "pollutionclient_rs"
version = "0.1.0"
edition = "2021"
publish = false

[dependencies]
chrono = "=0.4.45"
influxdb = "=0.8.0"
serde = { version = "=1.0.229", features = ["derive"] }
tokio = { version = "=1.53.2", features = ["macros", "rt"] }
toml = "=1.1.7"
ureq = { version = "=2.12.1", features = ["json"] }
