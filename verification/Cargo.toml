[package]
name = "audio-device-monitor"
version = "0.1.0"
edition = "2021"
publish = false

[dependencies]
anyhow = "1"
clap = { version = "4", features = ["derive"] }
core-foundation = "*"
coreaudio-sys = "*"
dirs = "*"
serde = { version = "1", features = ["derive"] }
signal-hook = "*"
signal-hook-tokio = { version = "*", features = ["futures-v0_3"] }
tokio = { version = "1", features = ["macros", "rt-multi-thread", "signal", "sync", "time"] }
tokio-stream = "*"
toml = "*"
tracing = "*"
tracing-appender = "*"
tracing-subscriber = { version = "*", features = ["env-filter", "json"] }
