[package]
name = "prediction_guard"
version = "0.1.0"
edition = "2021"
publish = false

[dependencies]
base64 = "=0.22.1"
serde = { version = "=1.0.229", features = ["derive"] }
serde_json = "=1.0.151"
reqwest = { version = "=0.12.28", default-features = false, features = ["json"] }
tokio = { version = "=1.53.2", features = ["sync"] }
eventsource-client = "=0.13.0"
futures = "=0.3.34"
dotenvy = "=0.15.7"
