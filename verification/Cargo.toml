[package]
name = "capster"
version = "0.1.0"
edition = "2021"
publish = false

[dependencies]
moka = { version = "=0.12.16", features = ["sync"] }
rand = "=0.9.5"
uuid = { version = "=1.29.1", features = ["v4", "v7"] }
captcha-rs = "=0.5.0"
image = "=0.25.10"
base64 = "=0.22.1"
qrcode = "=0.14.1"
sha2 = "=0.10.9"
axum = { version = "=0.8.9", features = ["multipart"] }
tokio = { version = "=1.54.1", features = ["full"] }
serde = { version = "=1.0.229", features = ["derive"] }
serde_json = "=1.0.154"
figment = { version = "=0.10.19", features = ["toml", "env"] }
dotenvy = "=0.15.7"
tracing = "=0.1.44"
tracing-subscriber = { version = "=0.3.23", features = ["env-filter"] }
tower-http = { version = "=0.6.11", features = ["trace"] }
utoipa = { version = "=5.5.0", features = ["axum_extras"] }
utoipa-swagger-ui = { version = "=9.0.2", features = ["axum", "vendored"] }
axum-prometheus = "=0.10.1"
redis = { version = "=0.27.6", default-features = false, features = ["aio", "tokio-comp", "connection-manager"] }
