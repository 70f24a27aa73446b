[package]
name = "serpe_orchestrator"
version = "0.1.0"
edition = "2021"
publish = false

[dependencies]
tokio = { version = "=1.54.1", features = ["sync", "macros", "rt-multi-thread", "net", "time", "signal", "io-util"] }
tokio-util = "=0.7.20"
bevy_ecs = "=0.14.2"
axum = "=0.6.20"
tower = { version = "=0.4.13", features = ["buffer", "limit", "util"] }
tower-http = { version = "=0.4.4", features = ["cors"] }
serde = { version = "=1.0.229", features = ["derive"] }
kml = "=0.8.7"
geo = "=0.28.0"
rand = "=0.8.8"
tracing = "=0.1.44"
tracing-subscriber = "=0.3.23"
futures = "=0.3.34"
config = { version = "=0.13.4", default-features = false, features = ["yaml"] }
mavio = { version = "=0.4.4", features = ["tokio"] }
mavspec = { version = "=0.4.9", features = ["rust"] }
