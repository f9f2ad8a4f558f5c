[package]
name = "checkboxes"
version = "0.1.0"
edition = "2021"
publish = false

[dependencies]
axum = "*"
futures = "*"
tokio = { version = "*", features = ["rt-multi-thread", "net", "time", "macros"] }
tokio-stream = "*"
tracing = "*"
tracing-stackdriver = "*"
tracing-subscriber = { version = "*", features = ["env-filter", "fmt", "json"] }
