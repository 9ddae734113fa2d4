[package]
name = "weather_forecast"
version = "0.1.0"
edition = "2021"
publish = false

[dependencies]
chrono = "0.4"
prost = "0.13"
reqwest = { version = "0.12", features = ["json"] }
rust-ini = "0.21"
serde = { version = "1", features = ["derive"] }
tokio = { version = "1", features = ["macros", "rt-multi-thread"] }
tonic = "0.12"

[dev-dependencies]
serde_json = "1"
