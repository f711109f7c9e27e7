[package]
name = "ymap"
version = "0.1.0"
edition = "2021"
publish = false

[dependencies]
alloy-primitives = "=1.7.3"
toml_edit = "=0.25.18"
camino = "=1.2.6"
clap = { version = "=4.6.7", features = ["derive"] }
serde = { version = "=1.0.229", features = ["derive"] }
serde_json = "=1.0.154"
syn = { version = "=2.0.119", features = ["full", "parsing", "printing"] }
quote = "=1.0.47"
proc-macro2 = "=1.0.107"
darling = "=0.20.11"
axum-csp = "*"
