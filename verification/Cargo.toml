[package]
name = "teaops_agentd"
version = "0.1.0"
edition = "2021"
publish = false

[dependencies]
anyhow = "1"
fs2 = "0.4"
reqwest = { version = "0.12", default-features = false, features = ["rustls-tls"] }
tokio = { version = "1", features = ["macros", "rt-multi-thread", "process", "signal", "time", "fs", "sync"] }
tracing = "0.1"
tracing-subscriber = { version = "0.3", features = ["env-filter", "fmt"] }
