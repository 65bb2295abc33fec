[package]
name = "nsq_supervisor"
version = "0.1.0"
edition = "2021"
publish = false

[dependencies]
serde = { version = "*", features = ["derive"] }
sysinfo = "*"
tokio = { version = "*", features = ["rt-multi-thread", "macros", "signal", "time"] }
toml = "*"
tracing = "*"
tracing-subscriber = "*"
