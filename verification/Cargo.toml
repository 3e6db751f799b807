[package]
name = "signalflow-bot"
version = "0.4.0"
edition = "2021"
publish = false

[dependencies]
k256 = "0.13"
sha3 = "0.10"
hex = "0.4"
chrono = "0.4"
serde = { version = "1", features = ["derive"] }
serde_json = "1"
toml = "0.8"
tokio = { version = "1", features = ["full"] }
reqwest = { version = "0.12", default-features = false, features = ["json"] }
futures-util = "0.3"
tokio-tungstenite = "0.24"
sqlx = { version = "0.8", default-features = false, features = ["runtime-tokio", "sqlite", "derive"] }
async-trait = "0.1"
thiserror = "1"
log = "0.4"
env_logger = "0.11"
tracing = "0.1"
