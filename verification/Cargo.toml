[package]
name = "bme280_exporter"
version = "0.1.0"
edition = "2021"
publish = false

[dependencies]
anyhow = "=1.0.104"
axum = "=0.6.20"
bme280-rs = "=0.1.0"
clap = { version = "=4.6.7", features = ["derive"] }
linux-embedded-hal = "=0.3.2"
metrics-exporter-prometheus = { version = "=0.12.2", default-features = false }
tokio = { version = "=1.54.1", features = ["macros", "rt-multi-thread", "sync", "time"] }
tracing = "=0.1.44"
tracing-subscriber = "=0.3.23"
