[package]
name = "fozmo"
version = "0.1.0"
edition = "2021"
publish = false

[dependencies]
base64 = "0.22"
bytes = "1"
flacenc = "*"
futures-util = "0.3"
rand = "0.8"
schemars = "*"
serde = { version = "1", features = ["derive"] }
serde_json = "1"
sha2 = "0.10"
symphonia = "0.5"
tokio = { version = "1", features = ["fs", "macros", "rt", "sync", "time"] }
tracing = "0.1"
urlencoding = "2"
