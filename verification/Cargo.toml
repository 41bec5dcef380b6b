[package]
name = "apollo_tracing"
version = "0.1.0"
edition = "2021"
publish = false

[dependencies]
flate2 = "*"
uname = "*"
tokio = { version = "*", features = ["rt", "sync", "macros", "time"] }
reqwest = { version = "*", default-features = false }
chrono = "*"
serde_json = "*"
async-trait = "*"
http = "*"
bytes = "*"
thiserror = "*"
futures = "*"
tracing = "*"
