[package]
name = "hqaudio_api"
version = "0.1.0"
edition = "2021"
publish = false

[dependencies]
base64 = "0.22"
des = "0.8"
url = "2"
rand = "0.8"
axum = { version = "0.7", features = ["ws"] }
tokio = { version = "1", features = ["full"] }
serde = { version = "1", features = ["derive"] }
serde_json = "1"
reqwest = { version = "0.12", default-features = false, features = ["json", "rustls-tls"] }
redis = { version = "0.27", features = ["tokio-comp"] }
bb8-redis = "0.17"
chrono = "0.4"
once_cell = "1"
futures-util = "0.3"
tower-http = { version = "0.5", features = ["cors", "compression-gzip", "compression-br", "trace"] }
tower_governor = "0.4"
tracing-subscriber = "0.3"
dotenvy = "0.15"
utoipa = { version = "4", features = ["axum_extras"] }
utoipa-swagger-ui = { version = "7", features = ["axum"] }
