[package]
name = "nvidia_smi_exporter"
version = "0.1.0"
edition = "2021"
publish = false

[dependencies]
axum = "*"
tokio = { version = "*", features = ["rt-multi-thread", "net", "macros"] }
tracing = "*"
tracing-subscriber = "*"
