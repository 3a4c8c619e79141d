[package]
name = "reports_filter"
version = "0.1.0"
edition = "2021"
publish = false

[dependencies]
csv = "1"
roxmltree = "*"
clap = { version = "4", features = ["derive"] }
indicatif = "*"
rand = "0.8"
serde = { version = "1", features = ["derive"] }
serde_json = "1"
serde_yml = "*"
tracing = "0.1"
tracing-appender = "0.2"
tracing-subscriber = { version = "0.3", features = ["env-filter"] }
