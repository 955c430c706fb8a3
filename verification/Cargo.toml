[package]
name = "weather_gateway"
version = "0.1.0"
edition = "2021"
publish = false

[dependencies]
chrono = "0.4"
axum = "0.6"
reqwest = { version = "0.11", default-features = false, features = ["rustls-tls"] }
serde = { version = "1", features = ["derive"] }
serde_json = "1"
tokio = { version = "1", features = ["rt-multi-thread", "macros"] }
