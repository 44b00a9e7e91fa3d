[package]
name = "freshblu"
version = "0.1.0"
edition = "2021"
publish = false

[dependencies]
uuid = { version = "=1.29.1", features = ["v4", "serde"] }
base64 = "=0.22.1"
bcrypt = "=0.15.1"
sha2 = "=0.10.9"
rand = "=0.8.8"
url = "=2.5.8"
serde = { version = "=1.0.229", features = ["derive"] }
serde_json = "=1.0.154"
chrono = { version = "=0.4.45", features = ["serde"] }
thiserror = "=1.0.69"
clap = { version = "=4.6.7", features = ["derive", "env"] }
colored = "=2.2.0"
tokio = { version = "=1.54.1", features = ["full"] }
futures = "=0.3.34"
reqwest = { version = "=0.12.28", default-features = false, features = ["json", "rustls-tls"] }
axum = { version = "=0.7.9", features = ["ws"] }
tower-http = { version = "=0.5.2", features = ["cors", "trace"] }
tokio-tungstenite = "=0.21.0"
tokio-stream = { version = "=0.1.19", features = ["sync"] }
async-trait = "=0.1.92"
dashmap = "=5.5.3"
dotenvy = "=0.15.7"
lazy_static = "=1.5.1"
prometheus = "=0.13.4"
tracing = "=0.1.44"
tracing-subscriber = { version = "=0.3.23", features = ["env-filter"] }
async-nats = "=0.33.0"
redis = { version = "=0.25.5", features = ["tokio-comp", "connection-manager"] }
rumqttd = "=0.19.0"
anyhow = "=1.0.104"
