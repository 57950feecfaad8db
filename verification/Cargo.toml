[package]
name = "tkspeed"
version = "0.1.0"
edition = "2021"
publish = false

[dependencies]
serde = { version = "1", features = ["derive"] }
serde_json = "1"
sha2 = "0.10"
sysinfo = "0.32"
nvml-wrapper = "0.10"
thiserror = "1"
anyhow = "1"
tokio = { version = "1", features = ["rt-multi-thread", "macros", "time"] }
tracing = "0.1"
tracing-subscriber = "0.3"
tracing-appender = "0.2"
winreg = "0.52"
sqlx = { version = "0.8", default-features = false, features = ["runtime-tokio", "sqlite"] }
ts-rs = "*"
