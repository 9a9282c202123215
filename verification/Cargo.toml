[package]
name = "trace-debug"
version = "0.1.0"
edition = "2021"
publish = false

[dependencies]
clap = { version = "4", features = ["derive"] }
opentelemetry = "0.20"
opentelemetry-jaeger = "0.19"
opentelemetry-otlp = "0.13"
opentelemetry-stdout = { version = "0.1", features = ["trace"] }
tokio = { version = "1", features = ["rt", "macros"] }
